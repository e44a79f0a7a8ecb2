use burton_update_dev::newest::{EntryKind, NewestSearch};
use burton_update_dev::search::{find_artifact, ArtifactSearch, Probe, SearchStep};

/// Runs the search against fixed answers and returns the final step and the questions asked.
fn run(
    dirs: usize,
    names: usize,
    is_dir: &dyn Fn(usize) -> bool,
    file: &dyn Fn(usize, usize) -> bool,
    tree: &dyn Fn(usize, usize) -> bool,
) -> (SearchStep, Vec<Probe>) {
    let mut search = ArtifactSearch::new(dirs, names);
    let mut asked = Vec::new();
    let mut step = search.step();
    while let SearchStep::Ask(probe) = step {
        asked.push(probe);
        let yes = match probe {
            Probe::Directory { dir } => is_dir(dir),
            Probe::File { dir, name } => file(dir, name),
            Probe::Tree { dir, name } => tree(dir, name),
        };
        step = find_artifact(&mut search, yes);
    }
    (step, asked)
}

#[test]
fn search_without_directories_is_missing() {
    let (step, asked) = run(0, 2, &|_| true, &|_, _| true, &|_, _| true);
    assert_eq!(step, SearchStep::Missing);
    assert!(asked.is_empty());
}

#[test]
fn search_prefers_direct_file_in_first_directory() {
    let (step, asked) = run(2, 1, &|_| true, &|_, _| true, &|_, _| true);
    assert_eq!(step, SearchStep::Found(Probe::File { dir: 0, name: 0 }));
    assert_eq!(
        asked,
        vec![Probe::Directory { dir: 0 }, Probe::File { dir: 0, name: 0 }]
    );
}

#[test]
fn search_skips_non_directories_and_looks_in_trees() {
    let (step, asked) = run(3, 2, &|d| d != 0, &|_, _| false, &|d, n| d == 1 && n == 1);
    assert_eq!(step, SearchStep::Found(Probe::Tree { dir: 1, name: 1 }));
    assert_eq!(
        asked,
        vec![
            Probe::Directory { dir: 0 },
            Probe::Directory { dir: 1 },
            Probe::File { dir: 1, name: 0 },
            Probe::Tree { dir: 1, name: 0 },
            Probe::File { dir: 1, name: 1 },
            Probe::Tree { dir: 1, name: 1 },
        ]
    );
}

#[test]
fn search_reports_missing_after_every_pair() {
    let (step, asked) = run(2, 2, &|_| true, &|_, _| false, &|_, _| false);
    assert_eq!(step, SearchStep::Missing);
    assert_eq!(asked.len(), 2 * (1 + 2 * 2));
    let (_, asked) = run(3, 4, &|d| d != 1, &|_, _| false, &|_, _| false);
    assert!(asked.len() <= 3 * (2 * 4 + 1));
}

#[test]
fn search_with_no_names_checks_directories_only() {
    let (step, asked) = run(2, 0, &|_| true, &|_, _| true, &|_, _| true);
    assert_eq!(step, SearchStep::Missing);
    assert_eq!(asked, vec![Probe::Directory { dir: 0 }, Probe::Directory { dir: 1 }]);
}

#[test]
fn newest_keeps_latest_and_first_of_ties() {
    let mut search = NewestSearch::new("root", "a.gz");
    assert_eq!(search.next_directory(), Some("root"));
    assert_eq!(search.next_directory(), None);
    assert_eq!(search.classify(true, Some("a.gz")), EntryKind::Directory);
    assert_eq!(search.classify(false, Some("a.gz")), EntryKind::Candidate);
    assert_eq!(search.classify(false, Some("b.gz")), EntryKind::Other);
    assert_eq!(search.classify(false, None), EntryKind::Other);
    search.offer(5, "first");
    search.offer(3, "older");
    search.offer(5, "tie");
    search.offer(-7, "before epoch");
    assert_eq!(search.into_newest(), Some("first"));

    let mut later = NewestSearch::new("root", "a.gz");
    later.offer(1, "one");
    later.offer(2, "two");
    assert_eq!(later.into_newest(), Some("two"));

    let empty: NewestSearch<&str> = NewestSearch::new("root", "a.gz");
    assert_eq!(empty.into_newest(), None);
}

#[test]
fn newest_walks_pending_directories_last_first() {
    let mut search = NewestSearch::new("root", "x");
    assert_eq!(search.next_directory(), Some("root"));
    search.push_directory("a");
    search.push_directory("b");
    assert_eq!(search.next_directory(), Some("b"));
    assert_eq!(search.next_directory(), Some("a"));
    assert_eq!(search.next_directory(), None);
}
