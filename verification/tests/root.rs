use burton_update_dev::root::{repo_root, repo_root_start, RootProbe, RootStep};

/// Drives the choice with a marked build location flag and the marks of the
/// current directory and its ancestors (None: no current directory).
fn pick_root(compiled_marked: bool, ancestors: Option<&[bool]>) -> (RootStep, usize) {
    let mut step = repo_root_start();
    let mut at = 0usize;
    loop {
        match step {
            RootStep::Ask(probe) => {
                let yes = match probe {
                    RootProbe::CompiledMarker => compiled_marked,
                    RootProbe::CurrentDirectory => ancestors.is_some(),
                    RootProbe::Marker => ancestors.unwrap()[at],
                    RootProbe::Parent => {
                        let more = at + 1 < ancestors.unwrap().len();
                        if more {
                            at += 1;
                        }
                        more
                    }
                };
                step = repo_root(probe, yes);
            }
            done => return (done, at),
        }
    }
}

#[test]
fn marked_build_location_wins() {
    assert_eq!(pick_root(true, Some(&[true])).0, RootStep::UseCompiledCanonical);
}

#[test]
fn nearest_marked_ancestor_is_chosen() {
    assert_eq!(pick_root(false, Some(&[false, false, true, true])), (RootStep::UseCurrent, 2));
    assert_eq!(pick_root(false, Some(&[true, false])), (RootStep::UseCurrent, 0));
}

#[test]
fn falls_back_to_build_location() {
    assert_eq!(pick_root(false, Some(&[false, false])).0, RootStep::UseCompiled);
    assert_eq!(pick_root(false, None).0, RootStep::UseCompiled);
}
