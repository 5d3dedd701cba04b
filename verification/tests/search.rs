use auto_installer::desktop::{create_desktop_entry, DesktopConfig};
use auto_installer::flow::{Action, Next, Reply};
use auto_installer::install::link_to_local_bin;
use auto_installer::model::PackageKind;
use auto_installer::search::{LauncherSearch, LinkSearch};

fn act(n: Next<Option<String>>) -> Action {
    match n {
        Next::Act(a) => a,
        other => panic!("expected a request, got {:?}", other),
    }
}

#[test]
fn written_launcher_is_found_by_the_search() {
    let root = "/home/u/apps/a\"b";
    let plan = create_desktop_entry(
        &DesktopConfig {
            name: "Tool".to_string(),
            icon_path: None,
            terminal: false,
            categories: String::new(),
        },
        "Tool",
        "/home/u/apps/a\"b/bin/tool x",
        PackageKind::AppImage,
        None,
        Some("/home/u"),
    )
    .unwrap();
    let (mut search, n) = LauncherSearch::start(Some("/home/u"), root);
    match act(n) {
        Action::ListDir { path } => assert_eq!(path, "/home/u/.local/share/applications"),
        other => panic!("{:?}", other),
    }
    let other = "/home/u/.local/share/applications/other.desktop".to_string();
    let n = search.resume(Reply::Entries(Some(vec![
        "/home/u/.local/share/applications/notes.txt".to_string(),
        other.clone(),
        plan.path.clone(),
    ])));
    assert!(matches!(act(n), Action::Canonicalize { .. }));
    match act(search.resume(Reply::Canonical(Ok(root.to_string())))) {
        Action::ReadText { path } => assert_eq!(path, other),
        a => panic!("{:?}", a),
    }
    match act(search.resume(Reply::Text(Ok("[Desktop Entry]\nExec=/usr/bin/x\n".to_string())))) {
        Action::ReadText { path } => assert_eq!(path, plan.path),
        a => panic!("{:?}", a),
    }
    match search.resume(Reply::Text(Ok(plan.content.clone()))) {
        Next::Done(found) => assert_eq!(found, Some(plan.path.clone())),
        other => panic!("{:?}", other),
    }
}

#[test]
fn made_link_is_found_by_the_search() {
    let root = "/home/u/apps/Tool";
    let link = link_to_local_bin("Tool", Some("/home/u")).unwrap();
    let (mut search, n) = LinkSearch::start(Some("/home/u"), root);
    match act(n) {
        Action::ListDir { path } => assert_eq!(path, "/home/u/.local/bin"),
        other => panic!("{:?}", other),
    }
    let other = "/home/u/.local/bin/other".to_string();
    let n = search.resume(Reply::Entries(Some(vec![other.clone(), link.link_path.clone()])));
    assert!(matches!(act(n), Action::Canonicalize { .. }));
    match act(search.resume(Reply::Canonical(Ok(root.to_string())))) {
        Action::ReadLinkTarget { path } => assert_eq!(path, other),
        a => panic!("{:?}", a),
    }
    match act(search.resume(Reply::LinkTarget(None))) {
        Action::ReadLinkTarget { path } => assert_eq!(path, link.link_path),
        a => panic!("{:?}", a),
    }
    match act(search.resume(Reply::LinkTarget(Some("/home/u/apps/Tool/bin/tool".to_string())))) {
        Action::Canonicalize { path } => assert_eq!(path, "/home/u/apps/Tool/bin/tool"),
        a => panic!("{:?}", a),
    }
    match search.resume(Reply::Canonical(Ok("/home/u/apps/Tool/bin/tool".to_string()))) {
        Next::Done(found) => assert_eq!(found, Some(link.link_path.clone())),
        other => panic!("{:?}", other),
    }
}

#[test]
fn searches_without_home_find_nothing() {
    let (_, n) = LauncherSearch::start(None, "/r");
    assert!(matches!(n, Next::Done(None)));
    let (_, n) = LinkSearch::start(None, "/r");
    assert!(matches!(n, Next::Done(None)));
}
