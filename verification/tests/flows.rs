use auto_installer::desktop::DesktopConfig;
use auto_installer::errors::{InstallError, IoStep};
use auto_installer::flow::{Action, DirEntryInfo, EntryFacts, ListingFailure, Next, Reply, Scan};
use auto_installer::install::{IconProbe, SelectionProbe};
use auto_installer::install_flow::{InstallFlow, InstallRequest};
use auto_installer::listing_flow::{InstalledAppsRequest, ListingFlow};
use auto_installer::model::{FileFacts, PackageKind, StepStatus};
use auto_installer::preview_flow::{PreviewFlow, PreviewRequest};
use auto_installer::removal_flow::{RemovalFlow, UninstallRequest};

fn act<T: std::fmt::Debug>(n: Next<T>) -> Action {
    match n {
        Next::Act(a) => a,
        other => panic!("expected a request, got {:?}", other),
    }
}

fn ok() -> Reply {
    Reply::Status(Ok(()))
}

fn file() -> Reply {
    Reply::Facts(Ok(FileFacts { is_file: true, len: 10 }))
}

fn request(kind: PackageKind, source: &str) -> InstallRequest {
    InstallRequest {
        source_path: source.to_string(),
        install_dir: " ~/apps ".to_string(),
        package_kind: kind,
        preview_root: None,
        selected_executable_path: None,
        desktop_config: DesktopConfig {
            name: "Foo".to_string(),
            icon_path: None,
            terminal: false,
            categories: "".to_string(),
        },
        create_desktop_entry: false,
        add_to_path: false,
    }
}

fn entry(name: &str, path: &str, is_symlink: bool, is_dir: bool, is_file: bool, mode: u32) -> EntryFacts {
    EntryFacts {
        name: name.to_string(),
        path: path.to_string(),
        is_symlink,
        is_dir,
        is_file,
        mode,
    }
}

fn home() -> Option<String> {
    Some("/h".to_string())
}

#[test]
fn install_appimage_with_launcher_and_link() {
    let mut req = request(PackageKind::AppImage, "/d/Foo.AppImage");
    req.create_desktop_entry = true;
    req.add_to_path = true;
    let (mut flow, n) = InstallFlow::start(req, home());
    match act(n) {
        Action::Inspect { path } => assert_eq!(path, "/d/Foo.AppImage"),
        a => panic!("{:?}", a),
    }
    match act(flow.resume(file())) {
        Action::CreateDir { path } => assert_eq!(path, "/h/apps/Foo"),
        a => panic!("{:?}", a),
    }
    match act(flow.resume(ok())) {
        Action::CopyFile { from, to } => {
            assert_eq!(from, "/d/Foo.AppImage");
            assert_eq!(to, "/h/apps/Foo/Foo.AppImage");
        },
        a => panic!("{:?}", a),
    }
    match act(flow.resume(ok())) {
        Action::ReadMode { path } => assert_eq!(path, "/h/apps/Foo/Foo.AppImage"),
        a => panic!("{:?}", a),
    }
    match act(flow.resume(Reply::Mode(Ok(0o644)))) {
        Action::SetMode { path, mode } => {
            assert_eq!(path, "/h/apps/Foo/Foo.AppImage");
            assert_eq!(mode, 0o755);
        },
        a => panic!("{:?}", a),
    }
    match act(flow.resume(ok())) {
        Action::CreateDir { path } => assert_eq!(path, "/h/.local/share/applications"),
        a => panic!("{:?}", a),
    }
    match act(flow.resume(ok())) {
        Action::WriteFile { path, content } => {
            assert_eq!(path, "/h/.local/share/applications/Foo.desktop");
            assert_eq!(
                content,
                "[Desktop Entry]\nType=Application\nName=Foo\nExec=env APPIMAGELAUNCHER_DISABLE=1 /h/apps/Foo/Foo.AppImage\nTerminal=false\nCategories=Utility;\n"
            );
        },
        a => panic!("{:?}", a),
    }
    match act(flow.resume(ok())) {
        Action::CreateDir { path } => assert_eq!(path, "/h/.local/bin"),
        a => panic!("{:?}", a),
    }
    match act(flow.resume(ok())) {
        Action::Exists { path } => assert_eq!(path, "/h/.local/bin/Foo"),
        a => panic!("{:?}", a),
    }
    match act(flow.resume(Reply::Found(true))) {
        Action::RemoveFile { path } => assert_eq!(path, "/h/.local/bin/Foo"),
        a => panic!("{:?}", a),
    }
    match act(flow.resume(ok())) {
        Action::Symlink { target, link } => {
            assert_eq!(target, "/h/apps/Foo/Foo.AppImage");
            assert_eq!(link, "/h/.local/bin/Foo");
        },
        a => panic!("{:?}", a),
    }
    let resp = match flow.resume(ok()) {
        Next::Done(r) => r,
        other => panic!("{:?}", other),
    };
    assert_eq!(resp.app_name, "Foo");
    assert_eq!(resp.install_root, "/h/apps/Foo");
    assert_eq!(resp.executable_path.as_deref(), Some("/h/apps/Foo/Foo.AppImage"));
    assert_eq!(resp.desktop_entry_path.as_deref(), Some("/h/.local/share/applications/Foo.desktop"));
    assert_eq!(resp.path_link.as_deref(), Some("/h/.local/bin/Foo"));
    let details: Vec<&str> = resp.steps.iter().map(|s| s.detail.as_str()).collect();
    assert_eq!(
        details,
        vec![
            "已创建 /h/apps/Foo",
            "已复制到 /h/apps/Foo/Foo.AppImage",
            "已设置为可执行",
            "已创建 /h/.local/share/applications/Foo.desktop",
            "已链接到 /h/.local/bin/Foo",
        ]
    );
}

#[test]
fn install_archive_skipping_launcher_and_link() {
    let mut req = request(PackageKind::Tarball, "/d/tool.tar.gz");
    req.preview_root = Some(" /tmp/p ".to_string());
    req.selected_executable_path = Some("/tmp/p/bin/tool".to_string());
    let (mut flow, n) = InstallFlow::start(req, home());
    act(n);
    match act(flow.resume(file())) {
        Action::CreateDir { path } => assert_eq!(path, "/h/apps/tool"),
        a => panic!("{:?}", a),
    }
    match act(flow.resume(ok())) {
        Action::ProbeSelection { preview_root, selected } => {
            assert_eq!(preview_root, "/tmp/p");
            assert_eq!(selected, "/tmp/p/bin/tool");
        },
        a => panic!("{:?}", a),
    }
    let probe = SelectionProbe {
        canonical_root: Some("/tmp/p".to_string()),
        canonical_selected: Ok("/tmp/p/bin/tool".to_string()),
        selected_facts: Ok(FileFacts { is_file: true, len: 1 }),
    };
    match act(flow.resume(Reply::Selection(probe))) {
        Action::Canonicalize { path } => assert_eq!(path, "/tmp/p"),
        a => panic!("{:?}", a),
    }
    match act(flow.resume(Reply::Canonical(Ok("/tmp/p".to_string())))) {
        Action::CreateDir { path } => assert_eq!(path, "/h/apps/tool"),
        a => panic!("{:?}", a),
    }
    match act(flow.resume(ok())) {
        Action::Scan { path } => assert_eq!(path, "/tmp/p"),
        a => panic!("{:?}", a),
    }
    let top = Scan { entries: vec![entry("bin", "/tmp/p/bin", false, true, false, 0o755)], failure: None };
    match act(flow.resume(Reply::Scanned(Ok(top)))) {
        Action::CreateDir { path } => assert_eq!(path, "/h/apps/tool/bin"),
        a => panic!("{:?}", a),
    }
    match act(flow.resume(ok())) {
        Action::Scan { path } => assert_eq!(path, "/tmp/p/bin"),
        a => panic!("{:?}", a),
    }
    let bin = Scan { entries: vec![entry("tool", "/tmp/p/bin/tool", false, false, true, 0o755)], failure: None };
    match act(flow.resume(Reply::Scanned(Ok(bin)))) {
        Action::CopyFile { from, to } => {
            assert_eq!(from, "/tmp/p/bin/tool");
            assert_eq!(to, "/h/apps/tool/bin/tool");
        },
        a => panic!("{:?}", a),
    }
    match act(flow.resume(ok())) {
        Action::SetMode { path, mode } => {
            assert_eq!(path, "/h/apps/tool/bin/tool");
            assert_eq!(mode, 0o755);
        },
        a => panic!("{:?}", a),
    }
    match act(flow.resume(ok())) {
        Action::ReadMode { path } => assert_eq!(path, "/h/apps/tool/bin/tool"),
        a => panic!("{:?}", a),
    }
    act(flow.resume(Reply::Mode(Ok(0o700))));
    let resp = match flow.resume(ok()) {
        Next::Done(r) => r,
        other => panic!("{:?}", other),
    };
    assert_eq!(resp.executable_path.as_deref(), Some("/h/apps/tool/bin/tool"));
    assert_eq!(resp.desktop_entry_path, None);
    assert_eq!(resp.path_link, None);
    let steps: Vec<(&str, StepStatus)> = resp.steps.iter().map(|s| (s.title.as_str(), s.status)).collect();
    assert_eq!(
        steps,
        vec![
            ("准备目录", StepStatus::Done),
            ("复制文件", StepStatus::Done),
            ("确认入口", StepStatus::Done),
            ("桌面入口", StepStatus::Skipped),
            ("PATH 链接", StepStatus::Skipped),
        ]
    );
}

#[test]
fn install_refusals() {
    let (_, n) = InstallFlow::start(request(PackageKind::Unknown, "/d/x"), home());
    assert!(matches!(n, Next::Fail(InstallError::UnknownPackage)));
    let (_, n) = InstallFlow::start(request(PackageKind::Archive, "d/x.zip"), home());
    assert!(matches!(n, Next::Fail(InstallError::SourcePathNotAbsolute)));
    let (_, n) = InstallFlow::start(request(PackageKind::Archive, "/d/x.zip"), None);
    assert!(matches!(n, Next::Fail(InstallError::NoHome)));
    let mut rel = request(PackageKind::Archive, "/d/x.zip");
    rel.install_dir = "apps".to_string();
    let (mut flow, _) = InstallFlow::start(rel, home());
    assert!(matches!(flow.resume(file()), Next::Fail(InstallError::RelativeInstallDir)));
    let (mut flow, _) = InstallFlow::start(request(PackageKind::Archive, "/d/x.zip"), home());
    assert!(matches!(flow.resume(Reply::Facts(Ok(FileFacts { is_file: false, len: 0 }))), Next::Fail(InstallError::SourceNotFile)));
    let (mut flow, _) = InstallFlow::start(request(PackageKind::Archive, "/d/x.zip"), home());
    act(flow.resume(file()));
    match flow.resume(Reply::Status(Err("denied".to_string()))) {
        Next::Fail(e) => {
            assert_eq!(e, InstallError::Io(IoStep::CreateInstallDir, "denied".to_string()));
            assert_eq!(e.message(), "创建安装目录失败：denied");
        },
        other => panic!("{:?}", other),
    }
    let (mut flow, _) = InstallFlow::start(request(PackageKind::Archive, "/d/x.zip"), home());
    act(flow.resume(file()));
    assert!(matches!(flow.resume(ok()), Next::Fail(InstallError::MissingPreviewRoot)));
}

#[test]
fn install_refuses_relative_selection_before_probing() {
    let mut req = request(PackageKind::Archive, "/d/x.zip");
    req.preview_root = Some(" /tmp/p ".to_string());
    req.selected_executable_path = Some("p/run".to_string());
    let (mut flow, _) = InstallFlow::start(req, home());
    act(flow.resume(file()));
    assert!(matches!(flow.resume(ok()), Next::Fail(InstallError::SelectionNotAbsolute)));
    let mut req = request(PackageKind::Archive, "/d/x.zip");
    req.preview_root = Some(" /tmp/p ".to_string());
    req.selected_executable_path = Some(" /tmp/p/run ".to_string());
    let (mut flow, _) = InstallFlow::start(req, home());
    act(flow.resume(file()));
    match act(flow.resume(ok())) {
        Action::ProbeSelection { preview_root, selected } => {
            assert_eq!(preview_root, "/tmp/p");
            assert_eq!(selected, "/tmp/p/run");
        },
        other => panic!("{:?}", other),
    }
}

#[test]
fn install_icon_copied_from_appimage_preview() {
    let mut req = request(PackageKind::AppImage, "/d/Foo.AppImage");
    req.create_desktop_entry = true;
    req.preview_root = Some("/tmp/p".to_string());
    req.desktop_config.icon_path = Some(" /tmp/p/squashfs-root/foo.png ".to_string());
    let (mut flow, _) = InstallFlow::start(req, home());
    for reply in [file(), ok(), ok(), Reply::Mode(Ok(0o755))] {
        act(flow.resume(reply));
    }
    match act(flow.resume(ok())) {
        Action::ProbeIcon { icon, preview_root } => {
            assert_eq!(icon, "/tmp/p/squashfs-root/foo.png");
            assert_eq!(preview_root.as_deref(), Some("/tmp/p"));
        },
        a => panic!("{:?}", a),
    }
    let probe = IconProbe {
        canonical_icon: Some("/tmp/p/squashfs-root/foo.png".to_string()),
        canonical_preview: Some("/tmp/p".to_string()),
    };
    match act(flow.resume(Reply::Icon(probe))) {
        Action::CreateDir { path } => assert_eq!(path, "/h/apps/Foo/icons"),
        a => panic!("{:?}", a),
    }
    match act(flow.resume(ok())) {
        Action::CopyFile { from, to } => {
            assert_eq!(from, "/tmp/p/squashfs-root/foo.png");
            assert_eq!(to, "/h/apps/Foo/icons/foo.png");
        },
        a => panic!("{:?}", a),
    }
    match act(flow.resume(ok())) {
        Action::Exists { path } => assert_eq!(path, "/h/apps/Foo/icons/foo.png"),
        a => panic!("{:?}", a),
    }
    act(flow.resume(Reply::Found(true)));
    match act(flow.resume(ok())) {
        Action::WriteFile { content, .. } => assert!(content.ends_with("Icon=/h/apps/Foo/icons/foo.png\n")),
        a => panic!("{:?}", a),
    }
    assert!(matches!(flow.resume(ok()), Next::Done(_)));
}

#[test]
fn preview_archive() {
    let req = PreviewRequest { source_path: "/d/tool.zip".to_string(), package_kind: PackageKind::Archive };
    let (mut flow, n) = PreviewFlow::start(req, "/tmp".to_string(), 7);
    match act(n) {
        Action::Inspect { path } => assert_eq!(path, "/d/tool.zip"),
        a => panic!("{:?}", a),
    }
    assert!(matches!(act(flow.resume(file())), Action::Clock));
    match act(flow.resume(Reply::Clock(Ok(99)))) {
        Action::CreateDir { path } => assert_eq!(path, "/tmp/auto-installer-tool-7-99"),
        a => panic!("{:?}", a),
    }
    match act(flow.resume(ok())) {
        Action::Run { command, directory, quiet_launcher } => {
            assert_eq!(command.program, "unzip");
            assert_eq!(command.args, vec!["-q", "/d/tool.zip", "-d", "/tmp/auto-installer-tool-7-99"]);
            assert_eq!(directory, None);
            assert!(!quiet_launcher);
        },
        a => panic!("{:?}", a),
    }
    match act(flow.resume(Reply::Ran(Ok(true)))) {
        Action::Walk { root } => assert_eq!(root, "/tmp/auto-installer-tool-7-99"),
        a => panic!("{:?}", a),
    }
    let r = "/tmp/auto-installer-tool-7-99";
    let files = vec![
        (format!("{}/tool.desktop", r), 0o644),
        (format!("{}/bin/tool", r), 0o755),
        (format!("{}/run.sh", r), 0o755),
        (format!("{}/icons/128/tool.png", r), 0o644),
    ];
    match act(flow.resume(Reply::Files(files))) {
        Action::ReadText { path } => assert_eq!(path, format!("{}/tool.desktop", r)),
        a => panic!("{:?}", a),
    }
    let text = "[Desktop Entry]\nName=Tool\nIcon=tool\nCategories=Development;\n".to_string();
    match act(flow.resume(Reply::Text(Ok(text)))) {
        Action::Exists { path } => assert_eq!(path, format!("{}/tool", r)),
        a => panic!("{:?}", a),
    }
    let resp = match flow.resume(Reply::Found(false)) {
        Next::Done(resp) => resp,
        other => panic!("{:?}", other),
    };
    assert_eq!(resp.preview_root, r);
    let execs: Vec<&str> = resp.executables.iter().map(|c| c.relative_path.as_str()).collect();
    assert_eq!(execs, vec!["bin/tool", "run.sh"]);
    assert_eq!(resp.icon_candidates.len(), 1);
    assert_eq!(resp.desktop_suggestion.name, "Tool");
    assert_eq!(resp.desktop_suggestion.icon_relative_path.as_deref(), Some("icons/128/tool.png"));
    assert_eq!(resp.desktop_suggestion.categories, "Development;");
    let details: Vec<&str> = resp.steps.iter().map(|s| s.detail.as_str()).collect();
    assert_eq!(
        details,
        vec!["已解压到 /tmp/auto-installer-tool-7-99", "检测到 2 个可执行文件", "检测到 1 个图标文件"]
    );
}

#[test]
fn preview_appimage() {
    let req = PreviewRequest { source_path: "/d/Foo.AppImage".to_string(), package_kind: PackageKind::AppImage };
    let (mut flow, _) = PreviewFlow::start(req, "/tmp".to_string(), 1);
    act(flow.resume(file()));
    act(flow.resume(Reply::Clock(Ok(5))));
    match act(flow.resume(ok())) {
        Action::CopyFile { from, to } => {
            assert_eq!(from, "/d/Foo.AppImage");
            assert_eq!(to, "/tmp/auto-installer-Foo-1-5/Foo.AppImage");
        },
        a => panic!("{:?}", a),
    }
    act(flow.resume(ok()));
    act(flow.resume(Reply::Mode(Ok(0o644))));
    match act(flow.resume(ok())) {
        Action::Run { command, directory, quiet_launcher } => {
            assert_eq!(command.program, "/tmp/auto-installer-Foo-1-5/Foo.AppImage");
            assert_eq!(command.args, vec!["--appimage-extract"]);
            assert_eq!(directory.as_deref(), Some("/tmp/auto-installer-Foo-1-5"));
            assert!(quiet_launcher);
        },
        a => panic!("{:?}", a),
    }
    match act(flow.resume(Reply::Ran(Ok(true)))) {
        Action::IsDir { path } => assert_eq!(path, "/tmp/auto-installer-Foo-1-5/squashfs-root"),
        a => panic!("{:?}", a),
    }
    act(flow.resume(Reply::Found(true)));
    let resp = match flow.resume(Reply::Files(vec![])) {
        Next::Done(resp) => resp,
        other => panic!("{:?}", other),
    };
    assert_eq!(resp.preview_root, "/tmp/auto-installer-Foo-1-5/squashfs-root");
    assert_eq!(resp.executables.len(), 1);
    assert_eq!(resp.executables[0].path, "/d/Foo.AppImage");
    assert_eq!(resp.executables[0].relative_path, "Foo.AppImage");
    assert_eq!(resp.desktop_suggestion.name, "Foo");
    assert_eq!(resp.steps[0].detail, "已解包 AppImage 到 /tmp/auto-installer-Foo-1-5/squashfs-root");
}

#[test]
fn preview_refusals() {
    let req = PreviewRequest { source_path: "/d/x.tar".to_string(), package_kind: PackageKind::Tarball };
    let (mut flow, _) = PreviewFlow::start(req, "/tmp".to_string(), 1);
    act(flow.resume(file()));
    act(flow.resume(Reply::Clock(Ok(5))));
    assert!(matches!(flow.resume(ok()), Next::Fail(InstallError::UnsupportedTarFormat)));

    let req = PreviewRequest { source_path: "/d/x.tar.gz".to_string(), package_kind: PackageKind::Tarball };
    let (mut flow, _) = PreviewFlow::start(req, "/tmp".to_string(), 1);
    act(flow.resume(file()));
    assert!(matches!(
        flow.resume(Reply::Clock(Err("before epoch".to_string()))),
        Next::Fail(InstallError::Io(IoStep::PreviewClock, _))
    ));

    let req = PreviewRequest { source_path: "/d/x.tar.gz".to_string(), package_kind: PackageKind::Tarball };
    let (mut flow, _) = PreviewFlow::start(req, "/tmp".to_string(), 1);
    act(flow.resume(file()));
    act(flow.resume(Reply::Clock(Ok(5))));
    act(flow.resume(ok()));
    match flow.resume(Reply::Ran(Err("not found".to_string()))) {
        Next::Fail(e) => assert_eq!(e.message(), "执行 tar 失败：not found"),
        other => panic!("{:?}", other),
    }

    let req = PreviewRequest { source_path: "/d/x.zip".to_string(), package_kind: PackageKind::Archive };
    let (mut flow, _) = PreviewFlow::start(req, "/tmp".to_string(), 1);
    act(flow.resume(file()));
    act(flow.resume(Reply::Clock(Ok(5))));
    act(flow.resume(ok()));
    act(flow.resume(Reply::Ran(Ok(true))));
    let files = vec![("/tmp/auto-installer-x-1-5/readme".to_string(), 0o644)];
    assert!(matches!(flow.resume(Reply::Files(files)), Next::Fail(InstallError::NoExecutables)));
}

#[test]
fn uninstall_removes_launcher_link_and_files() {
    let req = UninstallRequest { install_dir: "~/apps".to_string(), app_name: " Foo ".to_string() };
    let (mut flow, n) = RemovalFlow::start(req, home());
    match act(n) {
        Action::Canonicalize { path } => assert_eq!(path, "/h/apps"),
        a => panic!("{:?}", a),
    }
    match act(flow.resume(Reply::Canonical(Ok("/h/apps".to_string())))) {
        Action::Canonicalize { path } => assert_eq!(path, "/h/apps/Foo"),
        a => panic!("{:?}", a),
    }
    match act(flow.resume(Reply::Canonical(Ok("/h/apps/Foo".to_string())))) {
        Action::ListDir { path } => assert_eq!(path, "/h/.local/share/applications"),
        a => panic!("{:?}", a),
    }
    let entries = vec![
        "/h/.local/share/applications/other.desktop".to_string(),
        "/h/.local/share/applications/notes.txt".to_string(),
        "/h/.local/share/applications/Foo.desktop".to_string(),
    ];
    match act(flow.resume(Reply::Entries(Some(entries)))) {
        Action::Canonicalize { path } => assert_eq!(path, "/h/apps/Foo"),
        a => panic!("{:?}", a),
    }
    match act(flow.resume(Reply::Canonical(Ok("/h/apps/Foo".to_string())))) {
        Action::ReadText { path } => assert_eq!(path, "/h/.local/share/applications/other.desktop"),
        a => panic!("{:?}", a),
    }
    let other = "[Desktop Entry]\nExec=/h/apps/Bar/run\n".to_string();
    match act(flow.resume(Reply::Text(Ok(other)))) {
        Action::ReadText { path } => assert_eq!(path, "/h/.local/share/applications/Foo.desktop"),
        a => panic!("{:?}", a),
    }
    let mine = "[Desktop Entry]\nExec=env APPIMAGELAUNCHER_DISABLE=1 /h/apps/Foo/Foo.AppImage\n".to_string();
    match act(flow.resume(Reply::Text(Ok(mine)))) {
        Action::RemoveFile { path } => assert_eq!(path, "/h/.local/share/applications/Foo.desktop"),
        a => panic!("{:?}", a),
    }
    match act(flow.resume(ok())) {
        Action::ListDir { path } => assert_eq!(path, "/h/.local/bin"),
        a => panic!("{:?}", a),
    }
    let bins = vec!["/h/.local/bin/plain".to_string(), "/h/.local/bin/Foo".to_string()];
    act(flow.resume(Reply::Entries(Some(bins))));
    match act(flow.resume(Reply::Canonical(Ok("/h/apps/Foo".to_string())))) {
        Action::ReadLinkTarget { path } => assert_eq!(path, "/h/.local/bin/plain"),
        a => panic!("{:?}", a),
    }
    match act(flow.resume(Reply::LinkTarget(None))) {
        Action::ReadLinkTarget { path } => assert_eq!(path, "/h/.local/bin/Foo"),
        a => panic!("{:?}", a),
    }
    match act(flow.resume(Reply::LinkTarget(Some("../../apps/Foo/Foo.AppImage".to_string())))) {
        Action::Canonicalize { path } => assert_eq!(path, "/h/.local/bin/../../apps/Foo/Foo.AppImage"),
        a => panic!("{:?}", a),
    }
    match act(flow.resume(Reply::Canonical(Ok("/h/apps/Foo/Foo.AppImage".to_string())))) {
        Action::RemoveFile { path } => assert_eq!(path, "/h/.local/bin/Foo"),
        a => panic!("{:?}", a),
    }
    match act(flow.resume(ok())) {
        Action::RemoveTree { path } => assert_eq!(path, "/h/apps/Foo"),
        a => panic!("{:?}", a),
    }
    let resp = match flow.resume(ok()) {
        Next::Done(r) => r,
        other => panic!("{:?}", other),
    };
    assert_eq!(resp.app_name, "Foo");
    let details: Vec<&str> = resp.steps.iter().map(|s| s.detail.as_str()).collect();
    assert_eq!(
        details,
        vec![
            "已删除 /h/.local/share/applications/Foo.desktop",
            "已删除 /h/.local/bin/Foo",
            "已删除 /h/apps/Foo",
        ]
    );
}

#[test]
fn uninstall_refuses_outside_and_missing() {
    let req = UninstallRequest { install_dir: "/apps".to_string(), app_name: "x".to_string() };
    let (mut flow, _) = RemovalFlow::start(req, None);
    act(flow.resume(Reply::Canonical(Ok("/apps".to_string()))));
    assert!(matches!(
        flow.resume(Reply::Canonical(Ok("/elsewhere/x".to_string()))),
        Next::Fail(InstallError::AppOutsideInstallDir)
    ));
    let req = UninstallRequest { install_dir: "/apps".to_string(), app_name: "x".to_string() };
    let (mut flow, _) = RemovalFlow::start(req, None);
    act(flow.resume(Reply::Canonical(Ok("/apps".to_string()))));
    assert!(matches!(
        flow.resume(Reply::Canonical(Err("no such".to_string()))),
        Next::Fail(InstallError::AppNotInstalled)
    ));
    let req = UninstallRequest { install_dir: "/apps".to_string(), app_name: "x".to_string() };
    let (mut flow, _) = RemovalFlow::start(req, None);
    assert!(matches!(
        flow.resume(Reply::Canonical(Err("gone".to_string()))),
        Next::Fail(InstallError::ReadInstallDir(_))
    ));
}

#[test]
fn uninstall_without_home_skips_searches() {
    let req = UninstallRequest { install_dir: "/apps".to_string(), app_name: "x".to_string() };
    let (mut flow, _) = RemovalFlow::start(req, None);
    act(flow.resume(Reply::Canonical(Ok("/apps".to_string()))));
    match act(flow.resume(Reply::Canonical(Ok("/apps/x".to_string())))) {
        Action::RemoveTree { path } => assert_eq!(path, "/apps/x"),
        a => panic!("{:?}", a),
    }
    let resp = match flow.resume(ok()) {
        Next::Done(r) => r,
        other => panic!("{:?}", other),
    };
    let statuses: Vec<StepStatus> = resp.steps.iter().map(|s| s.status).collect();
    assert_eq!(statuses, vec![StepStatus::Skipped, StepStatus::Skipped, StepStatus::Done]);
}

#[test]
fn listing_finds_apps_sorted() {
    let (mut flow, n) = ListingFlow::start(InstalledAppsRequest { install_dir: "/apps".to_string() }, None);
    match act(n) {
        Action::Exists { path } => assert_eq!(path, "/apps"),
        a => panic!("{:?}", a),
    }
    match act(flow.resume(Reply::Found(true))) {
        Action::ReadDir { path } => assert_eq!(path, "/apps"),
        a => panic!("{:?}", a),
    }
    let entries = vec![
        DirEntryInfo { name: "zed".to_string(), path: "/apps/zed".to_string(), is_dir: true },
        DirEntryInfo { name: "file.txt".to_string(), path: "/apps/file.txt".to_string(), is_dir: false },
        DirEntryInfo { name: "alpha".to_string(), path: "/apps/alpha".to_string(), is_dir: true },
    ];
    match act(flow.resume(Reply::Dir(Ok(entries)))) {
        Action::Walk { root } => assert_eq!(root, "/apps/zed"),
        a => panic!("{:?}", a),
    }
    let zed_files = vec![("/apps/zed/run.sh".to_string(), 0o755), ("/apps/zed/bin/zed".to_string(), 0o755)];
    match act(flow.resume(Reply::Files(zed_files))) {
        Action::Walk { root } => assert_eq!(root, "/apps/alpha"),
        a => panic!("{:?}", a),
    }
    let apps = match flow.resume(Reply::Files(vec![])) {
        Next::Done(apps) => apps,
        other => panic!("{:?}", other),
    };
    assert_eq!(apps.len(), 2);
    assert_eq!(apps[0].app_name, "alpha");
    assert_eq!(apps[0].executable_path, None);
    assert_eq!(apps[1].app_name, "zed");
    assert_eq!(apps[1].install_root, "/apps/zed");
    assert_eq!(apps[1].executable_path.as_deref(), Some("/apps/zed/bin/zed"));
}

#[test]
fn listing_of_missing_or_unreadable_dir() {
    let (mut flow, _) = ListingFlow::start(InstalledAppsRequest { install_dir: "/apps".to_string() }, None);
    assert!(matches!(flow.resume(Reply::Found(false)), Next::Done(v) if v.is_empty()));
    let (mut flow, _) = ListingFlow::start(InstalledAppsRequest { install_dir: "/apps".to_string() }, None);
    act(flow.resume(Reply::Found(true)));
    match flow.resume(Reply::Dir(Err(ListingFailure::Entry("bad".to_string())))) {
        Next::Fail(e) => assert_eq!(e.message(), "读取安装目录项失败：bad"),
        other => panic!("{:?}", other),
    }
    let (_, n) = ListingFlow::start(InstalledAppsRequest { install_dir: "apps".to_string() }, None);
    assert!(matches!(n, Next::Fail(InstallError::RelativeInstallDir)));
}
