//! Which requested names may be served as files.

use vstd::prelude::*;
use crate::text::{chars_of, same_text};

verus! {

/// A name that is not empty and holds no path separator and no NUL.
pub open spec fn plain_name(name: Seq<char>) -> bool {
    &&& name.len() > 0
    &&& !name.contains('/')
    &&& !name.contains('\\')
    &&& !name.contains('\0')
}

/// Whether `c` is an ASCII letter.
pub open spec fn is_ascii_letter(c: char) -> bool {
    ('a' <= c && c <= 'z') || ('A' <= c && c <= 'Z')
}

/// Whether `name` begins like a Windows drive prefix: an ASCII letter, then `:`.
pub open spec fn drive_prefix(name: Seq<char>) -> bool {
    name.len() >= 2 && is_ascii_letter(name[0]) && name[1] == ':'
}

/// A plain name that is neither `.` nor `..` and does not begin like a
/// Windows drive prefix: on every platform such a path is a single normal
/// component, its own file name.
pub open spec fn ordinary_name(name: Seq<char>) -> bool {
    &&& plain_name(name)
    &&& name != "."@
    &&& name != ".."@
    &&& !drive_prefix(name)
}

/// What is served for a plain `name` whose final path component reads
/// `file_name`: the name itself, where that component is the whole name and
/// neither `.` nor `..`.
pub open spec fn spec_accept_file_name(name: Seq<char>, file_name: Option<Seq<char>>) -> Option<
    Seq<char>,
> {
    match file_name {
        Some(f) => if f == name && f != "."@ && f != ".."@ {
            Some(f)
        } else {
            None
        },
        None => None,
    }
}

/// `std::path::Path::file_name` of `name`, where that component is valid
/// UTF-8. Its documentation gives the final component of the path, and none
/// where the path ends in `..`. A name without separators, other than `.`
/// and `..`, that does not begin with an ASCII letter and `:` is a single
/// normal component on every platform, so it is its own file name. What a
/// name such as `C:x` gives follows the path syntax of the platform the
/// program runs on (on Windows a drive prefix), and is not stated.
#[verifier::external_body]
fn path_file_name(name: &str) -> (r: Option<&str>)
    ensures
        name@ == ".."@ ==> r is None,
        ordinary_name(name@) ==> r is Some && r.unwrap()@ == name@,
{
    match std::path::Path::new(name).file_name() {
        Some(f) => f.to_str(),
        None => None,
    }
}

/// Whether `name` is plain: not empty, no `/`, `\` or NUL.
fn is_plain_name(name: &str) -> (r: bool)
    ensures
        r == plain_name(name@),
{
    let cs = chars_of(name);
    if cs.len() == 0 {
        return false;
    }
    let mut i: usize = 0;
    while i < cs.len()
        invariant
            cs@ == name@,
            i <= cs@.len(),
            forall|j: int| 0 <= j < i ==> cs@[j] != '/' && cs@[j] != '\\' && cs@[j] != '\0',
        decreases cs.len() - i,
    {
        let c = cs[i];
        if c == '/' || c == '\\' || c == '\0' {
            assert(cs@[i as int] == c);
            return false;
        }
        i = i + 1;
    }
    true
}

/// The name to serve, given the final path component that `name` reads as.
pub fn accept_file_name<'a>(name: &'a str, file_name: Option<&'a str>) -> (r: Option<&'a str>)
    ensures
        match r {
            Some(f) => spec_accept_file_name(name@, opt_str_view(file_name)) == Some(f@),
            None => spec_accept_file_name(name@, opt_str_view(file_name)) is None,
        },
{
    match file_name {
        Some(f) => {
            if same_text(f, name) && !same_text(f, ".") && !same_text(f, "..") {
                Some(f)
            } else {
                None
            }
        },
        None => None,
    }
}

/// The view of an optional string.
pub open spec fn opt_str_view(o: Option<&str>) -> Option<Seq<char>> {
    match o {
        Some(v) => Some(v@),
        None => None,
    }
}

/// `name` where it can be served as a file of a search directory: a single
/// path component, not empty, without `/`, `\` or NUL, and neither `.` nor `..`.
pub fn safe_file_name(name: &str) -> (r: Option<&str>)
    ensures
        !plain_name(name@) ==> r is None,
        name@ == "."@ || name@ == ".."@ ==> r is None,
        r matches Some(f) ==> f@ == name@ && plain_name(name@),
        ordinary_name(name@) ==> r is Some && r.unwrap()@ == name@,
{
    if !is_plain_name(name) {
        return None;
    }
    let file_name = path_file_name(name);
    accept_file_name(name, file_name)
}

} // verus!
