use auto_installer::flow::{Action, Next, Reply, WalkEntry};
use auto_installer::walk::FileWalk;

fn surveyed(path: &Next<Vec<(String, u32)>>) -> String {
    match path {
        Next::Act(Action::Survey { path }) => path.clone(),
        other => panic!("expected a survey, got {:?}", other),
    }
}

fn item(path: &str, is_dir: bool, is_file: bool, mode: u32) -> Option<WalkEntry> {
    Some(WalkEntry { path: path.to_string(), is_dir, is_file, mode })
}

#[test]
fn walk_collects_files_depth_first() {
    let (mut walk, n) = FileWalk::start("/p");
    assert_eq!(surveyed(&n), "/p");
    assert!(walk.accepts(&Reply::Surveyed(None)));
    assert!(!walk.accepts(&Reply::Found(true)));
    let n = walk.resume(Reply::Surveyed(Some(vec![
        item("/p/a", true, false, 0o755),
        item("/p/run", false, true, 0o755),
        None,
        item("/p/link", false, false, 0o777),
        item("/p/b", true, false, 0o755),
    ])));
    // The directory found last is read first.
    assert_eq!(surveyed(&n), "/p/b");
    let n = walk.resume(Reply::Surveyed(Some(vec![item("/p/b/icon.png", false, true, 0o644)])));
    assert_eq!(surveyed(&n), "/p/a");
    // An unreadable directory holds nothing.
    match walk.resume(Reply::Surveyed(None)) {
        Next::Done(files) => assert_eq!(
            files,
            vec![("/p/run".to_string(), 0o755), ("/p/b/icon.png".to_string(), 0o644)]
        ),
        other => panic!("{:?}", other),
    }
    assert!(!walk.accepts(&Reply::Surveyed(None)));
}

#[test]
fn walk_of_unreadable_root_finds_nothing() {
    let (mut walk, _) = FileWalk::start("/missing");
    match walk.resume(Reply::Surveyed(None)) {
        Next::Done(files) => assert!(files.is_empty()),
        other => panic!("{:?}", other),
    }
}
