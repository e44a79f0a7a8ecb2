//! The package version as written in a Cargo manifest.

use vstd::prelude::*;
use crate::text::{
    chars_of, index_of, lemma_index_of, lemma_index_of_bounds, skip_whitespace, starts_with,
    starts_with_at, trim, trim_bounds, trim_end, trim_start,
};

verus! {

/// The version a manifest line declares: a trimmed line of the form
/// `version = "…"`, spaces allowed around `=`; the value runs to the next `"`
/// or to the end of the line.
pub open spec fn version_in_line(line: Seq<char>) -> Option<Seq<char>> {
    let t = trim(line);
    if starts_with(t, "version"@) {
        let after_key = trim_start(t.skip("version"@.len() as int));
        if after_key.len() > 0 && after_key[0] == '=' {
            let after_eq = trim_start(after_key.skip(1));
            if after_eq.len() > 0 && after_eq[0] == '"' {
                let body = after_eq.skip(1);
                Some(body.take(index_of(body, '"')))
            } else {
                None
            }
        } else {
            None
        }
    } else {
        None
    }
}

/// The version declared by the first line of `text` that declares one.
pub open spec fn spec_crate_version(text: Seq<char>) -> Option<Seq<char>>
    decreases text.len(),
{
    let k = index_of(text, '\n');
    match version_in_line(text.take(k)) {
        Some(v) => Some(v),
        None => if k >= text.len() {
            None
        } else {
            proof {
                lemma_index_of_bounds(text, '\n');
            }
            spec_crate_version(text.skip(k + 1))
        },
    }
}

/// The version declared by the line `cs[lo..hi]` of `text`.
fn version_in_line_at<'a>(text: &'a str, cs: &Vec<char>, lo: usize, hi: usize) -> (r: Option<&'a str>)
    requires
        cs@ == text@,
        lo <= hi <= cs@.len(),
    ensures
        match r {
            Some(v) => version_in_line(cs@.subrange(lo as int, hi as int)) == Some(v@),
            None => version_in_line(cs@.subrange(lo as int, hi as int)) is None,
        },
{
    let ghost line = cs@.subrange(lo as int, hi as int);
    let (a, b) = trim_bounds(cs, lo, hi);
    let ghost t = cs@.subrange(a as int, b as int);
    if !starts_with_at(cs, a, b, "version") {
        return None;
    }
    let key_len = chars_of("version").len();
    let p = skip_whitespace(cs, a + key_len, b);
    proof {
        assert(t.skip("version"@.len() as int) =~= cs@.subrange(a + key_len, b as int));
    }
    if p < b && cs[p] == '=' {
        let ghost after_key = cs@.subrange(p as int, b as int);
        proof {
            assert(after_key[0] == cs@[p as int]);
            assert(after_key.skip(1) =~= cs@.subrange(p + 1, b as int));
        }
        let q = skip_whitespace(cs, p + 1, b);
        if q < b && cs[q] == '"' {
            let ghost after_eq = cs@.subrange(q as int, b as int);
            let ghost body = after_eq.skip(1);
            proof {
                assert(after_eq[0] == cs@[q as int]);
                assert(body =~= cs@.subrange(q + 1, b as int));
            }
            let mut e = q + 1;
            while e < b && cs[e] != '"'
                invariant
                    q + 1 <= e <= b <= cs@.len(),
                    forall|j: int| q + 1 <= j < e ==> cs@[j] != '"',
                decreases b - e,
            {
                e = e + 1;
            }
            proof {
                lemma_index_of(body, '"', e - (q + 1));
                assert(body.take(e - (q + 1)) =~= cs@.subrange(q + 1, e as int));
            }
            return Some(text.substring_char(q + 1, e));
        }
        None
    } else {
        proof {
            assert(p < b ==> cs@.subrange(p as int, b as int)[0] == cs@[p as int]);
        }
        None
    }
}

/// The package version declared in the text of a Cargo manifest: the first
/// line, trimmed, of the form `version = "…"`.
pub fn crate_version<'a>(text: &'a str) -> (r: Option<&'a str>)
    ensures
        match r {
            Some(v) => spec_crate_version(text@) == Some(v@),
            None => spec_crate_version(text@) is None,
        },
{
    let cs = chars_of(text);
    let n = cs.len();
    let mut start: usize = 0;
    let mut i: usize = 0;
    assert(cs@.skip(0) =~= cs@);
    while i <= n
        invariant
            cs@ == text@,
            n == cs@.len(),
            start <= i <= n,
            forall|j: int| start <= j < i ==> cs@[j] != '\n',
            spec_crate_version(cs@) == spec_crate_version(cs@.skip(start as int)),
        decreases n - i,
    {
        if i == n || cs[i] == '\n' {
            let ghost rest = cs@.skip(start as int);
            proof {
                lemma_index_of(rest, '\n', i - start);
                assert(rest.take(i - start) =~= cs@.subrange(start as int, i as int));
            }
            let found = version_in_line_at(text, &cs, start, i);
            if found.is_some() {
                return found;
            }
            if i == n {
                return None;
            }
            proof {
                assert(rest.skip(i - start + 1) =~= cs@.skip(i + 1));
            }
            start = i + 1;
        }
        i = i + 1;
    }
    None
}

/// Law: the version read is the text between the opening quote and the
/// next one, so it never holds a quote.
pub proof fn lemma_version_has_no_quote(text: Seq<char>)
    ensures
        spec_crate_version(text) matches Some(v) ==> !v.contains('"'),
    decreases text.len(),
{
    lemma_index_of_bounds(text, '\n');
    let k = index_of(text, '\n');
    let t = trim(text.take(k));
    if starts_with(t, "version"@) {
        let after_key = trim_start(t.skip("version"@.len() as int));
        if after_key.len() > 0 && after_key[0] == '=' {
            let after_eq = trim_start(after_key.skip(1));
            if after_eq.len() > 0 && after_eq[0] == '"' {
                let body = after_eq.skip(1);
                lemma_index_of_bounds(body, '"');
                let v = body.take(index_of(body, '"'));
                if v.contains('"') {
                    let i = choose|i: int| 0 <= i < v.len() && v[i] == '"';
                    assert(body[i] == '"');
                }
            }
        }
    }
    if version_in_line(text.take(k)) is None && k < text.len() {
        lemma_version_has_no_quote(text.skip(k + 1));
    }
}

/// Law: a manifest whose line reads `version = "x"` gives exactly `x`, for
/// every `x` without a quote or a line break: the version is all the text
/// between the opening quote and the closing one, nothing cut from it.
pub proof fn lemma_quoted_version_is_read(x: Seq<char>)
    requires
        !x.contains('"'),
        !x.contains('\n'),
    ensures
        spec_crate_version("version = \""@ + x + "\""@) == Some(x),
{
    reveal_strlit("version = \"");
    reveal_strlit("\"");
    reveal_strlit("version");
    let pre = "version = \""@;
    let q = "\""@;
    let line = pre + x + q;
    let n = line.len() as int;
    assert(pre.len() == 11);
    assert forall|j: int| 0 <= j < n implies line[j] != '\n' by {
        if 11 <= j < 11 + x.len() {
            assert(line[j] == x[j - 11]);
        }
    }
    lemma_index_of(line, '\n', n);
    assert(line.take(n) =~= line);
    assert(line[0] == 'v');
    assert(line[n - 1] == '"');
    assert(trim_start(line) == line);
    assert(trim_end(line) == line);
    assert(trim(line) == line);
    assert(line.take(7) =~= "version"@);
    assert(starts_with(line, "version"@));
    let k = line.skip(7);
    assert(k[0] == ' ');
    assert(k.drop_first() =~= line.skip(8));
    assert(line.skip(8)[0] == '=');
    assert(trim_start(line.skip(8)) == line.skip(8));
    assert(trim_start(k) == line.skip(8));
    let after_key = line.skip(8);
    assert(after_key.skip(1) =~= line.skip(9));
    assert(line.skip(9)[0] == ' ');
    assert(line.skip(9).drop_first() =~= line.skip(10));
    assert(line.skip(10)[0] == '"');
    assert(trim_start(line.skip(10)) == line.skip(10));
    assert(trim_start(line.skip(9)) == line.skip(10));
    let body = line.skip(10).skip(1);
    assert(body =~= x + q);
    assert forall|j: int| 0 <= j < x.len() implies body[j] != '"' by {
        assert(body[j] == x[j]);
    }
    lemma_index_of(body, '"', x.len() as int);
    assert(body.take(x.len() as int) =~= x);
    assert(version_in_line(line.take(n)) == Some(x));
}

/// Law: lines are read in order. A first line that declares a version
/// decides, whatever follows; a first line that declares none is passed
/// over, and the rest of the text decides.
pub proof fn lemma_lines_read_in_order(line: Seq<char>, rest: Seq<char>)
    requires
        !line.contains('\n'),
    ensures
        version_in_line(line) is Some ==> spec_crate_version(line + "\n"@ + rest) == version_in_line(
            line,
        ),
        version_in_line(line) is None ==> spec_crate_version(line + "\n"@ + rest) == spec_crate_version(
            rest,
        ),
{
    reveal_strlit("\n");
    let text = line + "\n"@ + rest;
    let k = line.len() as int;
    assert forall|j: int| 0 <= j < k implies text[j] != '\n' by {
        assert(text[j] == line[j]);
    }
    assert(text[k] == '\n');
    lemma_index_of(text, '\n', k);
    assert(text.take(k) =~= line);
    assert(text.skip(k + 1) =~= rest);
}

} // verus!
