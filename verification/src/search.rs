//! Where a requested installer is found among the search directories.
//!
//! The search runs as a state machine: it names the file-system question it
//! needs answered next, and the caller answers it. Directories are taken in
//! order, and in each directory the names in order; for each name a file
//! directly in the directory is preferred to one found deeper in its tree.

use vstd::prelude::*;

verus! {

/// A question about the file system.
#[derive(Clone, Copy, Debug, PartialEq, Eq)]
pub enum Probe {
    /// Is search directory `dir` a directory?
    Directory { dir: usize },
    /// Is `dir` joined with name `name` a file?
    File { dir: usize, name: usize },
    /// Does the tree under `dir` hold a file called `name`?
    Tree { dir: usize, name: usize },
}

/// What the search needs next, or how it ended.
#[derive(Clone, Copy, Debug, PartialEq, Eq)]
pub enum SearchStep {
    /// Answer this question.
    Ask(Probe),
    /// The artifact is the one this question, answered yes, was about.
    Found(Probe),
    /// No search directory holds any of the names.
    Missing,
}

/// The answers recorded so far, by question.
pub type Answers = Map<Probe, bool>;

/// Whether `probe` was answered, and answered `value`.
pub open spec fn answered(a: Answers, probe: Probe, value: bool) -> bool {
    a.contains_key(probe) && a[probe] == value
}

/// Where a question stands in the order the search asks: by directory,
/// then by name, a direct file before the tree; a directory's own question
/// comes before those about its names.
pub open spec fn rank(p: Probe) -> (int, int, int) {
    match p {
        Probe::Directory { dir } => (dir as int, -1, 0),
        Probe::File { dir, name } => (dir as int, name as int, 0),
        Probe::Tree { dir, name } => (dir as int, name as int, 1),
    }
}

/// Whether question `p` comes before question `q`.
pub open spec fn asked_before(p: Probe, q: Probe) -> bool {
    let (a, b, c) = rank(p);
    let (x, y, z) = rank(q);
    a < x || (a == x && (b < y || (b == y && c < z)))
}

/// Every answered question comes before `q`; so `q` is not yet answered.
pub open spec fn all_before(a: Answers, q: Probe) -> bool {
    forall|k: Probe| #[trigger] a.contains_key(k) ==> asked_before(k, q)
}

/// The answers show that directory `dir` offers no file called `name`.
pub open spec fn decided_miss(a: Answers, dir: int, name: int) -> bool {
    ||| answered(a, Probe::Directory { dir: dir as usize }, false)
    ||| {
        &&& answered(a, Probe::Directory { dir: dir as usize }, true)
        &&& answered(a, Probe::File { dir: dir as usize, name: name as usize }, false)
        &&& answered(a, Probe::Tree { dir: dir as usize, name: name as usize }, false)
    }
}

/// The answers rule out every pair (directory, name) that comes before
/// (`dir`, `name`): all names of earlier directories, then earlier names.
pub open spec fn misses_before(a: Answers, names: int, dir: int, name: int) -> bool {
    &&& forall|d: int, n: int| 0 <= d < dir && 0 <= n < names ==> #[trigger] decided_miss(a, d, n)
    &&& forall|n: int| 0 <= n < name ==> #[trigger] decided_miss(a, dir, n)
}

/// The question that opens directory `dir`, or the end of the search.
pub open spec fn open_directory(dirs: int, dir: int) -> SearchStep {
    if dir < dirs {
        SearchStep::Ask(Probe::Directory { dir: dir as usize })
    } else {
        SearchStep::Missing
    }
}

/// The step after `probe` was answered `yes`.
pub open spec fn spec_next_step(dirs: int, names: int, probe: Probe, yes: bool) -> SearchStep {
    match probe {
        Probe::Directory { dir } => if yes && names > 0 {
            SearchStep::Ask(Probe::File { dir, name: 0 })
        } else {
            open_directory(dirs, dir + 1)
        },
        Probe::File { dir, name } => if yes {
            SearchStep::Found(probe)
        } else {
            SearchStep::Ask(Probe::Tree { dir, name })
        },
        Probe::Tree { dir, name } => if yes {
            SearchStep::Found(probe)
        } else if name + 1 < names {
            SearchStep::Ask(Probe::File { dir, name: (name + 1) as usize })
        } else {
            open_directory(dirs, dir + 1)
        },
    }
}

/// An upper bound on the questions still to come: each directory costs at
/// most one question for itself and two per name.
pub open spec fn questions_left(dirs: int, names: int, step: SearchStep) -> int {
    match step {
        SearchStep::Ask(Probe::Directory { dir }) => (dirs - dir) * (2 * names + 1),
        SearchStep::Ask(Probe::File { dir, name }) => (dirs - dir) * (2 * names + 1) - 1 - 2 * name,
        SearchStep::Ask(Probe::Tree { dir, name }) => (dirs - dir) * (2 * names + 1) - 2 - 2 * name,
        _ => 0,
    }
}

/// One more directory costs one more row of questions.
proof fn lemma_row(rows: int, width: int)
    by (nonlinear_arith)
    requires
        rows >= 1,
        width >= 1,
    ensures
        rows * width == (rows - 1) * width + width,
        rows * width >= width,
        (rows - 1) * width >= 0,
{
}

/// The search over `dirs` directories and `names` names.
pub struct ArtifactSearch {
    dirs: usize,
    names: usize,
    step: SearchStep,
    answers: Ghost<Answers>,
}

impl ArtifactSearch {
    /// The number of search directories.
    pub closed spec fn dir_count(&self) -> nat {
        self.dirs as nat
    }

    /// The number of names looked for.
    pub closed spec fn name_count(&self) -> nat {
        self.names as nat
    }

    /// What the search needs next, or how it ended.
    pub closed spec fn current(&self) -> SearchStep {
        self.step
    }

    /// Every answer given so far.
    pub closed spec fn answers(&self) -> Answers {
        self.answers@
    }

    /// What each step means about the answers given so far.
    pub open spec fn wf(&self) -> bool {
        let a = self.answers();
        let names = self.name_count() as int;
        match self.current() {
            SearchStep::Ask(Probe::Directory { dir }) => {
                &&& dir < self.dir_count()
                &&& misses_before(a, names, dir as int, 0)
                &&& all_before(a, Probe::Directory { dir })
            },
            SearchStep::Ask(Probe::File { dir, name }) => {
                &&& dir < self.dir_count()
                &&& name < names
                &&& misses_before(a, names, dir as int, name as int)
                &&& answered(a, Probe::Directory { dir }, true)
                &&& all_before(a, Probe::File { dir, name })
            },
            SearchStep::Ask(Probe::Tree { dir, name }) => {
                &&& dir < self.dir_count()
                &&& name < names
                &&& misses_before(a, names, dir as int, name as int)
                &&& answered(a, Probe::Directory { dir }, true)
                &&& answered(a, Probe::File { dir, name }, false)
                &&& all_before(a, Probe::Tree { dir, name })
            },
            SearchStep::Found(Probe::File { dir, name }) => {
                &&& dir < self.dir_count()
                &&& name < names
                &&& misses_before(a, names, dir as int, name as int)
                &&& answered(a, Probe::Directory { dir }, true)
                &&& answered(a, Probe::File { dir, name }, true)
            },
            SearchStep::Found(Probe::Tree { dir, name }) => {
                &&& dir < self.dir_count()
                &&& name < names
                &&& misses_before(a, names, dir as int, name as int)
                &&& answered(a, Probe::Directory { dir }, true)
                &&& answered(a, Probe::File { dir, name }, false)
                &&& answered(a, Probe::Tree { dir, name }, true)
            },
            SearchStep::Found(Probe::Directory { .. }) => false,
            SearchStep::Missing => misses_before(a, names, self.dir_count() as int, 0),
        }
    }

    /// A search over `dirs` directories for `names` names; nothing is answered yet.
    pub fn new(dirs: usize, names: usize) -> (s: Self)
        ensures
            s.wf(),
            s.dir_count() == dirs,
            s.name_count() == names,
            s.answers() == Map::<Probe, bool>::empty(),
            s.current() == open_directory(dirs as int, 0),
            questions_left(dirs as int, names as int, s.current()) <= dirs * (2 * names + 1),
    {
        if dirs > 0 {
            ArtifactSearch {
                dirs,
                names,
                step: SearchStep::Ask(Probe::Directory { dir: 0 }),
                answers: Ghost(Map::empty()),
            }
        } else {
            ArtifactSearch { dirs, names, step: SearchStep::Missing, answers: Ghost(Map::empty()) }
        }
    }

    /// What the search needs next, or how it ended.
    pub fn step(&self) -> (r: SearchStep)
        ensures
            r == self.current(),
    {
        self.step
    }
}

/// The true answer to `p` on a file system described by `is_dir`,
/// `has_file` and `in_tree`.
pub open spec fn truth(
    p: Probe,
    is_dir: spec_fn(int) -> bool,
    has_file: spec_fn(int, int) -> bool,
    in_tree: spec_fn(int, int) -> bool,
) -> bool {
    match p {
        Probe::Directory { dir } => is_dir(dir as int),
        Probe::File { dir, name } => has_file(dir as int, name as int),
        Probe::Tree { dir, name } => in_tree(dir as int, name as int),
    }
}

/// Directory `d` exists and offers a file called name `n`.
pub open spec fn offers(
    d: int,
    n: int,
    is_dir: spec_fn(int) -> bool,
    has_file: spec_fn(int, int) -> bool,
    in_tree: spec_fn(int, int) -> bool,
) -> bool {
    is_dir(d) && (has_file(d, n) || in_tree(d, n))
}

/// Law: where every answer given was true of the file system, a `Found`
/// step names the first pair (directory, name), directories first, whose
/// directory exists and holds the name, directly (a `File` question) or
/// only deeper in its tree (a `Tree` question); and `Missing` means that no
/// pair does.
pub proof fn lemma_search_finds_first_artifact(
    s: ArtifactSearch,
    is_dir: spec_fn(int) -> bool,
    has_file: spec_fn(int, int) -> bool,
    in_tree: spec_fn(int, int) -> bool,
)
    requires
        s.wf(),
        forall|k: Probe| #[trigger]
            s.answers().contains_key(k) ==> s.answers()[k] == truth(k, is_dir, has_file, in_tree),
    ensures
        s.current() matches SearchStep::Found(Probe::File { dir, name }) ==> {
            &&& dir < s.dir_count() && name < s.name_count()
            &&& is_dir(dir as int) && has_file(dir as int, name as int)
        },
        s.current() matches SearchStep::Found(Probe::Tree { dir, name }) ==> {
            &&& dir < s.dir_count() && name < s.name_count()
            &&& is_dir(dir as int) && !has_file(dir as int, name as int) && in_tree(
                dir as int,
                name as int,
            )
        },
        s.current() matches SearchStep::Found(p) ==> forall|d: int, n: int|
            0 <= d < s.dir_count() && 0 <= n < s.name_count() && (d < rank(p).0 || (d == rank(p).0
                && n < rank(p).1)) ==> !#[trigger] offers(d, n, is_dir, has_file, in_tree),
        s.current() is Missing ==> forall|d: int, n: int|
            0 <= d < s.dir_count() && 0 <= n < s.name_count() ==> !#[trigger] offers(
                d,
                n,
                is_dir,
                has_file,
                in_tree,
            ),
{
    let a = s.answers();
    let names = s.name_count() as int;
    assert forall|d: int, n: int|
        0 <= d < s.dir_count() && 0 <= n < s.name_count() && #[trigger] decided_miss(a, d, n) implies !offers(
        d,
        n,
        is_dir,
        has_file,
        in_tree,
    ) by {
        let pd = Probe::Directory { dir: d as usize };
        let pf = Probe::File { dir: d as usize, name: n as usize };
        let pt = Probe::Tree { dir: d as usize, name: n as usize };
        assert(a.contains_key(pd) ==> a[pd] == truth(pd, is_dir, has_file, in_tree));
        assert(a.contains_key(pf) ==> a[pf] == truth(pf, is_dir, has_file, in_tree));
        assert(a.contains_key(pt) ==> a[pt] == truth(pt, is_dir, has_file, in_tree));
    }
    match s.current() {
        SearchStep::Missing => {
            assert forall|d: int, n: int| 0 <= d < s.dir_count() && 0 <= n < s.name_count() implies !#[trigger] offers(
                d,
                n,
                is_dir,
                has_file,
                in_tree,
            ) by {
                assert(decided_miss(a, d, n));
            }
        },
        SearchStep::Found(p) => {
            assert forall|d: int, n: int|
                0 <= d < s.dir_count() && 0 <= n < s.name_count() && (d < rank(p).0 || (d == rank(p).0
                    && n < rank(p).1)) implies !#[trigger] offers(d, n, is_dir, has_file, in_tree) by {
                assert(decided_miss(a, d, n));
            }
            let pd = Probe::Directory { dir: rank(p).0 as usize };
            assert(a.contains_key(pd) ==> a[pd] == truth(pd, is_dir, has_file, in_tree));
            if let Probe::File { dir, name } = p {
                let pf = Probe::File { dir, name };
                assert(a.contains_key(pf) ==> a[pf] == truth(pf, is_dir, has_file, in_tree));
            }
            if let Probe::Tree { dir, name } = p {
                let pf = Probe::File { dir, name };
                let pt = Probe::Tree { dir, name };
                assert(a.contains_key(pf) ==> a[pf] == truth(pf, is_dir, has_file, in_tree));
                assert(a.contains_key(pt) ==> a[pt] == truth(pt, is_dir, has_file, in_tree));
            }
        },
        _ => {},
    }
}

/// Law: on one file system a finished search always ends the same way. Two
/// searches over the same number of directories and names, whose answers
/// were all true of that file system, end with the same step: the same
/// pair found, by the same kind of question, or both missing.
pub proof fn lemma_search_outcome_is_determined(
    s1: ArtifactSearch,
    s2: ArtifactSearch,
    is_dir: spec_fn(int) -> bool,
    has_file: spec_fn(int, int) -> bool,
    in_tree: spec_fn(int, int) -> bool,
)
    requires
        s1.wf(),
        s2.wf(),
        !(s1.current() is Ask),
        !(s2.current() is Ask),
        s1.dir_count() == s2.dir_count(),
        s1.name_count() == s2.name_count(),
        forall|k: Probe| #[trigger]
            s1.answers().contains_key(k) ==> s1.answers()[k] == truth(k, is_dir, has_file, in_tree),
        forall|k: Probe| #[trigger]
            s2.answers().contains_key(k) ==> s2.answers()[k] == truth(k, is_dir, has_file, in_tree),
    ensures
        s1.current() == s2.current(),
{
    lemma_search_finds_first_artifact(s1, is_dir, has_file, in_tree);
    lemma_search_finds_first_artifact(s2, is_dir, has_file, in_tree);
    match (s1.current(), s2.current()) {
        (SearchStep::Found(p1), SearchStep::Found(p2)) => {
            let (d1, n1) = (rank(p1).0, rank(p1).1);
            let (d2, n2) = (rank(p2).0, rank(p2).1);
            assert(offers(d1, n1, is_dir, has_file, in_tree));
            assert(offers(d2, n2, is_dir, has_file, in_tree));
            if d1 < d2 || (d1 == d2 && n1 < n2) {
                assert(!offers(d1, n1, is_dir, has_file, in_tree));
            }
            if d2 < d1 || (d1 == d2 && n2 < n1) {
                assert(!offers(d2, n2, is_dir, has_file, in_tree));
            }
        },
        (SearchStep::Found(p1), SearchStep::Missing) => {
            assert(offers(rank(p1).0, rank(p1).1, is_dir, has_file, in_tree));
        },
        (SearchStep::Missing, SearchStep::Found(p2)) => {
            assert(offers(rank(p2).0, rank(p2).1, is_dir, has_file, in_tree));
        },
        _ => {},
    }
}

/// Adding the answer to a new question keeps every earlier answer.
proof fn lemma_new_answer_keeps(a: Answers, p: Probe, yes: bool)
    requires
        !a.contains_key(p),
    ensures
        forall|d: int, n: int| #[trigger] decided_miss(a, d, n) ==> decided_miss(a.insert(p, yes), d, n),
        forall|k: Probe, v: bool| #[trigger] answered(a, k, v) ==> answered(a.insert(p, yes), k, v),
{
    assert forall|k: Probe, v: bool| #[trigger] answered(a, k, v) implies answered(a.insert(p, yes), k, v) by {
        assert(k != p);
    }
    assert forall|d: int, n: int| #[trigger] decided_miss(a, d, n) implies decided_miss(a.insert(p, yes), d, n) by {
        assert(answered(a, Probe::Directory { dir: d as usize }, false) ==> answered(a.insert(p, yes), Probe::Directory { dir: d as usize }, false));
        assert(answered(a, Probe::Directory { dir: d as usize }, true) ==> answered(a.insert(p, yes), Probe::Directory { dir: d as usize }, true));
        assert(answered(a, Probe::File { dir: d as usize, name: n as usize }, false) ==> answered(a.insert(p, yes), Probe::File { dir: d as usize, name: n as usize }, false));
        assert(answered(a, Probe::Tree { dir: d as usize, name: n as usize }, false) ==> answered(a.insert(p, yes), Probe::Tree { dir: d as usize, name: n as usize }, false));
    }
}

/// Rulings out and the order of questions survive a new answer.
proof fn lemma_misses_survive(a: Answers, p: Probe, yes: bool, names: int, dir: int, name: int)
    requires
        !a.contains_key(p),
        misses_before(a, names, dir, name),
    ensures
        misses_before(a.insert(p, yes), names, dir, name),
{
    lemma_new_answer_keeps(a, p, yes);
    let b = a.insert(p, yes);
    assert forall|d: int, n: int| 0 <= d < dir && 0 <= n < names implies #[trigger] decided_miss(b, d, n) by {
        assert(decided_miss(a, d, n));
    }
    assert forall|n: int| 0 <= n < name implies #[trigger] decided_miss(b, dir, n) by {
        assert(decided_miss(a, dir, n));
    }
}

/// After answering `p`, every answer comes before a later question `q`.
proof fn lemma_order_survives(a: Answers, p: Probe, yes: bool, q: Probe)
    requires
        all_before(a, p),
        asked_before(p, q),
    ensures
        all_before(a.insert(p, yes), q),
{
    assert forall|k: Probe| #[trigger] a.insert(p, yes).contains_key(k) implies asked_before(k, q) by {
        if k != p {
            assert(a.contains_key(k));
        }
    }
}

/// The step that opens directory `dir`, where `dir` may be one past the last.
fn open_directory_step(dirs: usize, dir: usize) -> (r: SearchStep)
    requires
        dir <= dirs,
    ensures
        r == open_directory(dirs as int, dir as int),
{
    if dir < dirs {
        SearchStep::Ask(Probe::Directory { dir })
    } else {
        SearchStep::Missing
    }
}

/// Records `yes` as the answer to the question the search asked, and
/// returns what it needs next or how it ended. A `Found` step names the
/// first pair (directory, name), directories first, that the answers show
/// to hold the artifact; `Missing` comes only when every pair is ruled out.
pub fn find_artifact(search: &mut ArtifactSearch, yes: bool) -> (r: SearchStep)
    requires
        old(search).wf(),
        old(search).current() is Ask,
    ensures
        final(search).wf(),
        r == final(search).current(),
        final(search).dir_count() == old(search).dir_count(),
        final(search).name_count() == old(search).name_count(),
        final(search).answers() == old(search).answers().insert(
            old(search).current()->Ask_0,
            yes,
        ),
        0 <= questions_left(
            final(search).dir_count() as int,
            final(search).name_count() as int,
            final(search).current(),
        ) < questions_left(
            old(search).dir_count() as int,
            old(search).name_count() as int,
            old(search).current(),
        ),
        final(search).current() matches SearchStep::Ask(q) ==> asked_before(
            old(search).current()->Ask_0,
            q,
        ),
        r == spec_next_step(
            old(search).dir_count() as int,
            old(search).name_count() as int,
            old(search).current()->Ask_0,
            yes,
        ),
{
    let probe = match search.step {
        SearchStep::Ask(p) => p,
        _ => { return search.step; },
    };
    let ghost a0 = search.answers@;
    let ghost a = a0.insert(probe, yes);
    proof {
        let d = rank(probe).0;
        lemma_row(search.dirs - d, 2 * search.names + 1);
        lemma_new_answer_keeps(a0, probe, yes);
        assert(!a0.contains_key(probe));
    }
    let dirs = search.dirs;
    let names = search.names;
    let next = match probe {
        Probe::Directory { dir } => {
            proof {
                lemma_misses_survive(a0, probe, yes, names as int, dir as int, 0);
                lemma_order_survives(a0, probe, yes, Probe::File { dir, name: 0 });
                lemma_order_survives(a0, probe, yes, Probe::Directory { dir: (dir + 1) as usize });
                if !(yes && names > 0) {
                    assert forall|d: int, n: int| 0 <= d < dir + 1 && 0 <= n < names implies #[trigger] decided_miss(a, d, n) by {
                        if d < dir {
                            assert(misses_before(a, names as int, dir as int, 0));
                        }
                    }
                }
            }
            if yes && names > 0 {
                SearchStep::Ask(Probe::File { dir, name: 0 })
            } else {
                open_directory_step(dirs, dir + 1)
            }
        },
        Probe::File { dir, name } => {
            proof {
                lemma_misses_survive(a0, probe, yes, names as int, dir as int, name as int);
                lemma_order_survives(a0, probe, yes, Probe::Tree { dir, name });
            }
            if yes {
                SearchStep::Found(probe)
            } else {
                SearchStep::Ask(Probe::Tree { dir, name })
            }
        },
        Probe::Tree { dir, name } => {
            proof {
                lemma_misses_survive(a0, probe, yes, names as int, dir as int, name as int);
                lemma_order_survives(a0, probe, yes, Probe::File { dir, name: (name + 1) as usize });
                lemma_order_survives(a0, probe, yes, Probe::Directory { dir: (dir + 1) as usize });
                assert(!yes ==> decided_miss(a, dir as int, name as int));
                if !yes && name + 1 >= names {
                    assert forall|d: int, n: int| 0 <= d < dir + 1 && 0 <= n < names implies #[trigger] decided_miss(a, d, n) by {
                        if d < dir {
                            assert(misses_before(a, names as int, dir as int, name as int));
                        } else if n < name {
                            assert(misses_before(a, names as int, dir as int, name as int));
                        }
                    }
                }
            }
            if yes {
                SearchStep::Found(probe)
            } else if name + 1 < names {
                SearchStep::Ask(Probe::File { dir, name: name + 1 })
            } else {
                open_directory_step(dirs, dir + 1)
            }
        },
    };
    search.step = next;
    search.answers = Ghost(a);
    next
}

} // verus!
