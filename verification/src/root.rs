//! Where the repository root is: the build-time location where it holds the
//! marker file, else the nearest directory, from the current one upward,
//! that holds it, else the build-time location.
//!
//! The choice runs as a state machine: it names the question it needs
//! answered, and the caller answers it from the environment and the disk.

use vstd::prelude::*;

verus! {

/// A question about the environment or the file system.
#[derive(Clone, Copy, Debug, PartialEq, Eq)]
pub enum RootProbe {
    /// Does the build-time location hold the marker file?
    CompiledMarker,
    /// Can the current directory be read? It becomes the directory in hand.
    CurrentDirectory,
    /// Does the directory in hand hold the marker file?
    Marker,
    /// Does the directory in hand have a parent? It becomes the directory in hand.
    Parent,
}

/// What the choice needs next, or how it ended.
#[derive(Clone, Copy, Debug, PartialEq, Eq)]
pub enum RootStep {
    /// Answer this question.
    Ask(RootProbe),
    /// The root is the build-time location, canonical where that can be had.
    UseCompiledCanonical,
    /// The root is the build-time location as it is.
    UseCompiled,
    /// The root is the directory in hand.
    UseCurrent,
}

/// The step after `probe` was answered `yes`.
pub open spec fn spec_root_step(probe: RootProbe, yes: bool) -> RootStep {
    match probe {
        RootProbe::CompiledMarker => if yes {
            RootStep::UseCompiledCanonical
        } else {
            RootStep::Ask(RootProbe::CurrentDirectory)
        },
        RootProbe::CurrentDirectory => if yes {
            RootStep::Ask(RootProbe::Marker)
        } else {
            RootStep::UseCompiled
        },
        RootProbe::Marker => if yes {
            RootStep::UseCurrent
        } else {
            RootStep::Ask(RootProbe::Parent)
        },
        RootProbe::Parent => if yes {
            RootStep::Ask(RootProbe::Marker)
        } else {
            RootStep::UseCompiled
        },
    }
}

/// The walk up from the directory at position `i` of `marked`, which lists
/// for the current directory and each ancestor, nearest first, whether it
/// holds the marker; each question is answered from that list by the step
/// rule. It gives how the walk ends and at which position.
pub open spec fn walk_up(marked: Seq<bool>, i: int) -> (RootStep, int)
    decreases marked.len() - i,
{
    if i < 0 || i >= marked.len() {
        (RootStep::UseCompiled, i)
    } else {
        match spec_root_step(RootProbe::Marker, marked[i]) {
            RootStep::Ask(RootProbe::Parent) => match spec_root_step(
                RootProbe::Parent,
                i + 1 < marked.len(),
            ) {
                RootStep::Ask(RootProbe::Marker) => walk_up(marked, i + 1),
                other => (other, i),
            },
            other => (other, i),
        }
    }
}

/// Law: the walk up from the current directory ends at the nearest
/// directory that holds the marker, and at the build-time location where
/// none does.
pub proof fn lemma_walk_finds_nearest_marker(marked: Seq<bool>, i: int)
    requires
        0 <= i <= marked.len(),
    ensures
        (exists|j: int| i <= j < marked.len() && marked[j]) ==> {
            let (end, at) = walk_up(marked, i);
            &&& end == RootStep::UseCurrent
            &&& i <= at < marked.len()
            &&& marked[at]
            &&& forall|j: int| i <= j < at ==> !marked[j]
        },
        !(exists|j: int| i <= j < marked.len() && marked[j]) ==> walk_up(marked, i).0
            == RootStep::UseCompiled,
    decreases marked.len() - i,
{
    if i < marked.len() && !marked[i] {
        lemma_walk_finds_nearest_marker(marked, i + 1);
        assert(forall|j: int| i <= j < marked.len() && marked[j] ==> i + 1 <= j);
    }
}

/// The first question: whether the build-time location holds the marker.
pub fn repo_root_start() -> (r: RootStep)
    ensures
        r == RootStep::Ask(RootProbe::CompiledMarker),
{
    RootStep::Ask(RootProbe::CompiledMarker)
}

/// The step after `probe` was answered `yes`: a marked build-time location
/// wins; else the current directory and its ancestors are tried, nearest
/// first, and the first that holds the marker is the root; where the
/// current directory cannot be read or no ancestor is left, the build-time
/// location is.
pub fn repo_root(probe: RootProbe, yes: bool) -> (r: RootStep)
    ensures
        r == spec_root_step(probe, yes),
{
    match probe {
        RootProbe::CompiledMarker => if yes {
            RootStep::UseCompiledCanonical
        } else {
            RootStep::Ask(RootProbe::CurrentDirectory)
        },
        RootProbe::CurrentDirectory => if yes {
            RootStep::Ask(RootProbe::Marker)
        } else {
            RootStep::UseCompiled
        },
        RootProbe::Marker => if yes {
            RootStep::UseCurrent
        } else {
            RootStep::Ask(RootProbe::Parent)
        },
        RootProbe::Parent => if yes {
            RootStep::Ask(RootProbe::Marker)
        } else {
            RootStep::UseCompiled
        },
    }
}

} // verus!
