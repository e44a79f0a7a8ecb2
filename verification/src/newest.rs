//! The newest file of a given name in a directory tree.
//!
//! The walk runs as a state machine over paths of any type `P`: the caller
//! takes directories from it, lists them, reports each entry, and offers the
//! modification time of each entry that the walk names a candidate. Of all
//! candidates the latest is kept, and among equally late ones the first.

use vstd::prelude::*;
use crate::text::same_text;

verus! {

/// How the walk treats an entry of a listed directory.
#[derive(Clone, Copy, Debug, PartialEq, Eq)]
pub enum EntryKind {
    /// A directory: it is walked too.
    Directory,
    /// A file with the name looked for: its modification time is wanted.
    Candidate,
    /// Anything else: skipped.
    Other,
}

/// Whether `k` is the first position of a latest time among `offered`.
pub open spec fn first_latest<P>(offered: Seq<(i128, P)>, k: int) -> bool {
    &&& 0 <= k < offered.len()
    &&& forall|j: int| 0 <= j < offered.len() ==> #[trigger] offered[j].0 <= offered[k].0
    &&& forall|j: int| 0 <= j < k ==> #[trigger] offered[j].0 < offered[k].0
}

/// What the walk keeps of the candidates offered: the first of the latest.
pub open spec fn spec_newest<P>(offered: Seq<(i128, P)>) -> Option<(i128, P)> {
    if offered.len() == 0 {
        None
    } else {
        Some(offered[choose|k: int| first_latest(offered, k)])
    }
}

/// At most one position is the first of the latest.
pub proof fn lemma_first_latest_unique<P>(offered: Seq<(i128, P)>, k1: int, k2: int)
    requires
        first_latest(offered, k1),
        first_latest(offered, k2),
    ensures
        k1 == k2,
{
    if k1 < k2 {
        assert(offered[k1].0 < offered[k2].0);
        assert(offered[k2].0 <= offered[k1].0);
    } else if k2 < k1 {
        assert(offered[k2].0 < offered[k1].0);
        assert(offered[k1].0 <= offered[k2].0);
    }
}

/// The walk for files called `name`.
pub struct NewestSearch<P> {
    name: String,
    pending: Vec<P>,
    newest: Option<(i128, P)>,
    offered: Ghost<Seq<(i128, P)>>,
    best: Ghost<int>,
}

impl<P> NewestSearch<P> {
    /// The file name looked for.
    pub closed spec fn target(&self) -> Seq<char> {
        self.name@
    }

    /// The directories still to be listed; the last is listed next.
    pub closed spec fn pending(&self) -> Seq<P> {
        self.pending@
    }

    /// Every candidate offered so far, with its time, in order.
    pub closed spec fn offered(&self) -> Seq<(i128, P)> {
        self.offered@
    }

    /// The candidate kept so far.
    pub closed spec fn kept(&self) -> Option<(i128, P)> {
        self.newest
    }

    /// The kept candidate is the first of the latest offered.
    pub closed spec fn wf(&self) -> bool {
        match self.newest {
            None => self.offered@.len() == 0,
            Some(entry) => first_latest(self.offered@, self.best@) && self.offered@[self.best@]
                == entry,
        }
    }

    /// A walk of the tree under `root` for files called `name`.
    pub fn new(root: P, name: &str) -> (s: Self)
        ensures
            s.wf(),
            s.target() == name@,
            s.pending() == seq![root],
            s.offered() == Seq::<(i128, P)>::empty(),
            s.kept() is None,
    {
        let mut pending = Vec::new();
        pending.push(root);
        NewestSearch {
            name: String::from_str(name),
            pending,
            newest: None,
            offered: Ghost(Seq::empty()),
            best: Ghost(0),
        }
    }

    /// The next directory to list, taken from the end of the pending ones.
    pub fn next_directory(&mut self) -> (r: Option<P>)
        requires
            old(self).wf(),
        ensures
            final(self).wf(),
            final(self).target() == old(self).target(),
            final(self).offered() == old(self).offered(),
            final(self).kept() == old(self).kept(),
            old(self).pending().len() == 0 ==> r is None && final(self).pending() == old(self).pending(),
            old(self).pending().len() > 0 ==> r == Some(old(self).pending().last())
                && final(self).pending() == old(self).pending().drop_last(),
    {
        self.pending.pop()
    }

    /// How an entry is treated: directories are walked, files with the name
    /// looked for are candidates, everything else is skipped.
    pub fn classify(&self, is_dir: bool, file_name: Option<&str>) -> (r: EntryKind)
        ensures
            is_dir ==> r == EntryKind::Directory,
            !is_dir ==> (r == EntryKind::Candidate <==> (file_name matches Some(f) && f@
                == self.target())),
            !is_dir ==> r != EntryKind::Directory,
    {
        if is_dir {
            return EntryKind::Directory;
        }
        match file_name {
            Some(f) => if same_text(f, self.name.as_str()) {
                EntryKind::Candidate
            } else {
                EntryKind::Other
            },
            None => EntryKind::Other,
        }
    }

    /// Adds a directory to be listed.
    pub fn push_directory(&mut self, dir: P)
        requires
            old(self).wf(),
        ensures
            final(self).wf(),
            final(self).target() == old(self).target(),
            final(self).offered() == old(self).offered(),
            final(self).kept() == old(self).kept(),
            final(self).pending() == old(self).pending().push(dir),
    {
        self.pending.push(dir);
    }

    /// Offers a candidate modified at `modified`. It is kept where nothing is
    /// kept yet or it is strictly later than the kept one, so that the kept
    /// candidate is always the first of the latest offered.
    pub fn offer(&mut self, modified: i128, path: P)
        requires
            old(self).wf(),
        ensures
            final(self).wf(),
            final(self).target() == old(self).target(),
            final(self).pending() == old(self).pending(),
            final(self).offered() == old(self).offered().push((modified, path)),
            final(self).kept() == (match old(self).kept() {
                Some(entry) => if modified <= entry.0 {
                    Some(entry)
                } else {
                    Some((modified, path))
                },
                None => Some((modified, path)),
            }),
            final(self).kept() == spec_newest(final(self).offered()),
    {
        let ghost old_offered = self.offered@;
        let ghost new_offered = old_offered.push((modified, path));
        let keep_old = match &self.newest {
            Some((existing, _)) => modified <= *existing,
            None => false,
        };
        if keep_old {
            let ghost k = self.best@;
            proof {
                assert forall|j: int| 0 <= j < new_offered.len() implies #[trigger] new_offered[j].0
                    <= new_offered[k].0 by {
                    if j < old_offered.len() {
                        assert(new_offered[j] == old_offered[j]);
                    }
                }
                assert forall|j: int| 0 <= j < k implies #[trigger] new_offered[j].0
                    < new_offered[k].0 by {
                    assert(new_offered[j] == old_offered[j]);
                }
            }
            self.offered = Ghost(new_offered);
        } else {
            let ghost k = old_offered.len() as int;
            proof {
                assert forall|j: int| 0 <= j < k implies #[trigger] new_offered[j].0
                    < new_offered[k].0 by {
                    assert(new_offered[j] == old_offered[j]);
                    assert(old_offered[j].0 <= old_offered[self.best@].0);
                }
            }
            self.newest = Some((modified, path));
            self.offered = Ghost(new_offered);
            self.best = Ghost(k);
        }
        proof {
            assert(first_latest(self.offered@, self.best@));
            self.lemma_kept_is_newest();
        }
    }

    /// The kept candidate is the first of the latest offered.
    pub proof fn lemma_kept_is_newest(&self)
        requires
            self.wf(),
        ensures
            self.kept() == spec_newest(self.offered()),
    {
        if self.offered@.len() > 0 {
            let k = choose|k: int| first_latest(self.offered@, k);
            lemma_first_latest_unique(self.offered@, k, self.best@);
        }
    }

    /// The kept candidate's path, if any was offered.
    pub fn into_newest(self) -> (r: Option<P>)
        requires
            self.wf(),
        ensures
            match spec_newest(self.offered()) {
                Some(entry) => r == Some(entry.1),
                None => r is None,
            },
    {
        proof {
            self.lemma_kept_is_newest();
        }
        match self.newest {
            Some((_, path)) => Some(path),
            None => None,
        }
    }
}

} // verus!
