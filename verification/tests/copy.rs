use auto_installer::copy_flow::CopyFlow;
use auto_installer::errors::{InstallError, IoStep};
use auto_installer::flow::{Action, EntryFacts, EntryFailure, Next, Reply, Scan};

fn act(n: Next<()>) -> Action {
    match n {
        Next::Act(a) => a,
        other => panic!("expected a request, got {:?}", other),
    }
}

fn ok() -> Reply {
    Reply::Status(Ok(()))
}

fn file(name: &str, path: &str, mode: u32) -> EntryFacts {
    EntryFacts { name: name.to_string(), path: path.to_string(), is_symlink: false, is_dir: false, is_file: true, mode }
}

fn dir(name: &str, path: &str) -> EntryFacts {
    EntryFacts { name: name.to_string(), path: path.to_string(), is_symlink: false, is_dir: true, is_file: false, mode: 0o755 }
}

fn link(name: &str, path: &str) -> EntryFacts {
    EntryFacts { name: name.to_string(), path: path.to_string(), is_symlink: true, is_dir: false, is_file: false, mode: 0o777 }
}

fn other(name: &str, path: &str) -> EntryFacts {
    EntryFacts { name: name.to_string(), path: path.to_string(), is_symlink: false, is_dir: false, is_file: false, mode: 0 }
}

fn scanned(entries: Vec<EntryFacts>) -> Reply {
    Reply::Scanned(Ok(Scan { entries, failure: None }))
}

fn started() -> CopyFlow {
    let (mut flow, n) = CopyFlow::start("/tmp/p", "/apps/x");
    match act(n) {
        Action::Canonicalize { path } => assert_eq!(path, "/tmp/p"),
        a => panic!("{:?}", a),
    }
    match act(flow.resume(Reply::Canonical(Ok("/tmp/p".to_string())))) {
        Action::CreateDir { path } => assert_eq!(path, "/apps/x"),
        a => panic!("{:?}", a),
    }
    match act(flow.resume(ok())) {
        Action::Scan { path } => assert_eq!(path, "/tmp/p"),
        a => panic!("{:?}", a),
    }
    flow
}

#[test]
fn copies_files_dirs_and_internal_links_depth_first() {
    let mut flow = started();
    let top = vec![
        other("fifo", "/tmp/p/fifo"),
        dir("lib", "/tmp/p/lib"),
        file("run", "/tmp/p/run", 0o755),
    ];
    match act(flow.resume(scanned(top))) {
        Action::CreateDir { path } => assert_eq!(path, "/apps/x/lib"),
        a => panic!("{:?}", a),
    }
    match act(flow.resume(ok())) {
        Action::Scan { path } => assert_eq!(path, "/tmp/p/lib"),
        a => panic!("{:?}", a),
    }
    let lib = vec![link("libx.so", "/tmp/p/lib/libx.so"), link("abs.so", "/tmp/p/lib/abs.so")];
    match act(flow.resume(scanned(lib))) {
        Action::ReadLink { path } => assert_eq!(path, "/tmp/p/lib/libx.so"),
        a => panic!("{:?}", a),
    }
    match act(flow.resume(Reply::Target(Ok("libx.so.1".to_string())))) {
        Action::Canonicalize { path } => assert_eq!(path, "/tmp/p/lib/libx.so.1"),
        a => panic!("{:?}", a),
    }
    match act(flow.resume(Reply::Canonical(Ok("/tmp/p/lib/libx.so.1".to_string())))) {
        Action::Present { path } => assert_eq!(path, "/apps/x/lib/libx.so"),
        a => panic!("{:?}", a),
    }
    match act(flow.resume(Reply::Found(false))) {
        Action::Symlink { target, link } => {
            assert_eq!(target, "libx.so.1");
            assert_eq!(link, "/apps/x/lib/libx.so");
        },
        a => panic!("{:?}", a),
    }
    match act(flow.resume(ok())) {
        Action::ReadLink { path } => assert_eq!(path, "/tmp/p/lib/abs.so"),
        a => panic!("{:?}", a),
    }
    act(flow.resume(Reply::Target(Ok("/tmp/p/lib/real.so".to_string()))));
    match act(flow.resume(Reply::Canonical(Ok("/tmp/p/lib/real.so".to_string())))) {
        Action::Present { path } => assert_eq!(path, "/apps/x/lib/abs.so"),
        a => panic!("{:?}", a),
    }
    match act(flow.resume(Reply::Found(true))) {
        Action::RemoveFile { path } => assert_eq!(path, "/apps/x/lib/abs.so"),
        a => panic!("{:?}", a),
    }
    match act(flow.resume(ok())) {
        Action::Symlink { target, link } => {
            assert_eq!(target, "/apps/x/lib/real.so");
            assert_eq!(link, "/apps/x/lib/abs.so");
        },
        a => panic!("{:?}", a),
    }
    match act(flow.resume(ok())) {
        Action::CopyFile { from, to } => {
            assert_eq!(from, "/tmp/p/run");
            assert_eq!(to, "/apps/x/run");
        },
        a => panic!("{:?}", a),
    }
    match act(flow.resume(ok())) {
        Action::SetMode { path, mode } => {
            assert_eq!(path, "/apps/x/run");
            assert_eq!(mode, 0o755);
        },
        a => panic!("{:?}", a),
    }
    assert!(matches!(flow.resume(ok()), Next::Done(())));
}

#[test]
fn escaping_link_stops_the_copy() {
    let mut flow = started();
    act(flow.resume(scanned(vec![link("evil", "/tmp/p/evil")])));
    act(flow.resume(Reply::Target(Ok("../../etc/passwd".to_string()))));
    assert!(matches!(
        flow.resume(Reply::Canonical(Ok("/etc/passwd".to_string()))),
        Next::Fail(InstallError::LinkEscapesArchive)
    ));
}

#[test]
fn unreadable_entry_stops_after_earlier_entries() {
    let mut flow = started();
    let scan = Scan {
        entries: vec![file("a", "/tmp/p/a", 0o644)],
        failure: Some(EntryFailure::Kind("bad type".to_string())),
    };
    match act(flow.resume(Reply::Scanned(Ok(scan)))) {
        Action::CopyFile { to, .. } => assert_eq!(to, "/apps/x/a"),
        a => panic!("{:?}", a),
    }
    act(flow.resume(ok()));
    match flow.resume(ok()) {
        Next::Fail(e) => {
            assert_eq!(e, InstallError::Io(IoStep::ReadPreviewEntryType, "bad type".to_string()));
            assert_eq!(e.message(), "读取临时目录项类型失败：bad type");
        },
        other => panic!("{:?}", other),
    }
}

#[test]
fn copy_failures_name_their_step() {
    let (mut flow, _) = CopyFlow::start("/tmp/p", "/apps/x");
    assert!(matches!(
        flow.resume(Reply::Canonical(Err("gone".to_string()))),
        Next::Fail(InstallError::ReadPreviewDir(_))
    ));
    let mut flow = started();
    assert!(matches!(
        flow.resume(Reply::Scanned(Err("denied".to_string()))),
        Next::Fail(InstallError::ReadPreviewDir(_))
    ));
    let mut flow = started();
    act(flow.resume(scanned(vec![file("a", "/tmp/p/a", 0o600)])));
    match flow.resume(Reply::Status(Err("full".to_string()))) {
        Next::Fail(e) => assert_eq!(e.message(), "复制安装文件失败：full"),
        other => panic!("{:?}", other),
    }
    let mut flow = started();
    act(flow.resume(scanned(vec![link("l", "/tmp/p/l")])));
    match flow.resume(Reply::Target(Err("not a link".to_string()))) {
        Next::Fail(e) => assert_eq!(e.message(), "读取符号链接失败：not a link"),
        other => panic!("{:?}", other),
    }
    let mut flow = started();
    act(flow.resume(scanned(vec![link("l", "/tmp/p/l")])));
    act(flow.resume(Reply::Target(Ok("missing".to_string()))));
    match flow.resume(Reply::Canonical(Err("no such file".to_string()))) {
        Next::Fail(e) => assert_eq!(e.message(), "解析符号链接目标失败：no such file"),
        other => panic!("{:?}", other),
    }
}

#[test]
fn empty_tree_is_copied_at_once() {
    let mut flow = started();
    assert!(matches!(flow.resume(scanned(vec![])), Next::Done(())));
}
