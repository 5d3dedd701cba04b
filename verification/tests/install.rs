use auto_installer::errors::InstallError;
use auto_installer::install::{
    appimage_extraction_outcome, check_uninstall_root, copy_action, copy_dir_contents,
    copy_icon_to_install_root, copy_internal_symlink, executable_mode, extract_appimage,
    extract_archive, extraction_outcome, inspect_source_path, install_appimage, install_archive,
    installed_icon_outcome, is_executable_mode, link_to_local_bin, resolve_installed_icon_path,
    resolve_link_target, sort_installed_apps, symlink_resolution, uninstall_target,
    validate_preview_selection, validate_source, CopyAction, IconPlan, IconProbe, InstalledApp,
    SelectionProbe,
};
use auto_installer::model::{FileFacts, PackageKind};

fn file(len: u64) -> Result<FileFacts, String> {
    Ok(FileFacts { is_file: true, len })
}

fn dir() -> Result<FileFacts, String> {
    Ok(FileFacts { is_file: false, len: 0 })
}

fn probe(root: Option<&str>, selected: Result<&str, &str>, facts: Result<FileFacts, String>) -> SelectionProbe {
    SelectionProbe {
        canonical_root: root.map(|r| r.to_string()),
        canonical_selected: selected.map(|s| s.to_string()).map_err(|e| e.to_string()),
        selected_facts: facts,
    }
}

fn icon_probe(icon: Option<&str>, preview: Option<&str>) -> IconProbe {
    IconProbe {
        canonical_icon: icon.map(|s| s.to_string()),
        canonical_preview: preview.map(|s| s.to_string()),
    }
}

#[test]
fn inspect_checks_path_and_metadata() {
    assert_eq!(inspect_source_path("rel/a.zip", &file(1)), Err(InstallError::SourcePathNotReal));
    assert_eq!(
        inspect_source_path("/d/a.zip", &Err("boom".to_string())),
        Err(InstallError::ReadSource("boom".to_string()))
    );
    assert_eq!(inspect_source_path("/d", &dir()), Err(InstallError::SourceNotFile));
    let info = inspect_source_path("/d/App.AppImage", &file(1234)).unwrap();
    assert_eq!(info.file_name, "App.AppImage");
    assert_eq!(info.file_size, 1234);
    assert_eq!(info.source_path, "/d/App.AppImage");
    let root = inspect_source_path("/", &file(0)).unwrap();
    assert_eq!(root.file_name, "application");
}

#[test]
fn source_checks_in_order() {
    assert_eq!(
        validate_source("rel", PackageKind::Unknown, &Err("x".to_string())),
        Err(InstallError::UnknownPackage)
    );
    assert_eq!(
        validate_source("rel", PackageKind::Archive, &file(1)),
        Err(InstallError::SourcePathNotAbsolute)
    );
    assert_eq!(
        validate_source("/a.zip", PackageKind::Archive, &Err("gone".to_string())),
        Err(InstallError::ReadSource("gone".to_string()))
    );
    assert_eq!(validate_source("/a", PackageKind::Tarball, &dir()), Err(InstallError::SourceNotFile));
    assert_eq!(validate_source("/a.zip", PackageKind::Archive, &file(1)), Ok(()));
}

#[test]
fn appimage_paths() {
    assert_eq!(
        install_appimage("/d/App.AppImage", "/apps/App"),
        Ok("/apps/App/App.AppImage".to_string())
    );
    assert_eq!(install_appimage("/", "/apps/App"), Err(InstallError::InvalidInstallFileName));
    let x = extract_appimage("/d/App.AppImage", "/tmp/p").unwrap();
    assert_eq!(x.extractor_path, "/tmp/p/App.AppImage");
    assert_eq!(x.extracted_root, "/tmp/p/squashfs-root");
    assert_eq!(extract_appimage("/", "/tmp/p"), Err(InstallError::InvalidAppImageName));
    assert_eq!(appimage_extraction_outcome(false, true, &x), Err(InstallError::AppImageExtractFailed));
    assert_eq!(appimage_extraction_outcome(true, false, &x), Err(InstallError::NoSquashfsRoot));
    assert_eq!(appimage_extraction_outcome(true, true, &x), Ok("/tmp/p/squashfs-root".to_string()));
}

#[test]
fn extraction_commands() {
    let gz = extract_archive("/d/a.TAR.GZ", PackageKind::Tarball, "/tmp/p").unwrap();
    assert_eq!(gz.program, "tar");
    assert_eq!(gz.args, vec!["-xzf", "/d/a.TAR.GZ", "-C", "/tmp/p"]);
    assert_eq!(extract_archive("/d/a.tgz", PackageKind::Tarball, "/p").unwrap().args[0], "-xzf");
    assert_eq!(extract_archive("/d/a.tar.xz", PackageKind::Tarball, "/p").unwrap().args[0], "-xJf");
    assert_eq!(extract_archive("/d/a.tar.bz2", PackageKind::Tarball, "/p").unwrap().args[0], "-xjf");
    assert_eq!(
        extract_archive("/d/a.tar", PackageKind::Tarball, "/p"),
        Err(InstallError::UnsupportedTarFormat)
    );
    let zip = extract_archive("/d/a.zip", PackageKind::Archive, "/p").unwrap();
    assert_eq!(zip.program, "unzip");
    assert_eq!(zip.args, vec!["-q", "/d/a.zip", "-d", "/p"]);
    assert_eq!(
        extract_archive("/d/a.AppImage", PackageKind::AppImage, "/p"),
        Err(InstallError::NothingToExtract)
    );
    assert_eq!(
        extract_archive("/d/a", PackageKind::Unknown, "/p"),
        Err(InstallError::NothingToExtract)
    );
    assert_eq!(extraction_outcome(true), Ok(()));
    assert_eq!(extraction_outcome(false), Err(InstallError::ExtractFailed));
}

#[test]
fn selection_checks_in_order() {
    let ok_probe = || probe(Some("/tmp/p"), Ok("/tmp/p/bin/app"), file(1));
    assert_eq!(
        validate_preview_selection("tmp/p", "/tmp/p/bin/app", &ok_probe()),
        Err(InstallError::SelectionNotAbsolute)
    );
    assert_eq!(
        validate_preview_selection("/tmp/p", "/tmp/p/bin/app", &probe(None, Ok("/x"), file(1))),
        Err(InstallError::PreviewRootMissing)
    );
    assert_eq!(
        validate_preview_selection("/tmp/p", "/tmp/p/a", &probe(Some("/tmp/p"), Err("no such"), file(1))),
        Err(InstallError::ReadExecutable("no such".to_string()))
    );
    assert_eq!(
        validate_preview_selection("/tmp/p", "/etc/passwd", &probe(Some("/tmp/p"), Ok("/etc/passwd"), file(1))),
        Err(InstallError::SelectionOutsidePreview)
    );
    assert_eq!(
        validate_preview_selection("/tmp/p", "/tmp/p/a", &probe(Some("/tmp/p"), Ok("/tmp/p/a"), Err("io".to_string()))),
        Err(InstallError::ReadExecutable("io".to_string()))
    );
    assert_eq!(
        validate_preview_selection("/tmp/p", "/tmp/p/a", &probe(Some("/tmp/p"), Ok("/tmp/p/a"), dir())),
        Err(InstallError::SelectionNotFile)
    );
    assert_eq!(
        validate_preview_selection("/tmp/p", "/tmp/p/bin/app", &ok_probe()),
        Ok(("/tmp/p".to_string(), "/tmp/p/bin/app".to_string()))
    );
}

#[test]
fn archive_install_plan() {
    let p = probe(Some("/tmp/p"), Ok("/tmp/p/bin/app"), file(1));
    assert_eq!(
        install_archive(None, Some("/tmp/p/bin/app"), "/apps/x", &p),
        Err(InstallError::MissingPreviewRoot)
    );
    assert_eq!(
        install_archive(Some("/tmp/p"), None, "/apps/x", &p),
        Err(InstallError::MissingSelectedExecutable)
    );
    let plan = install_archive(Some(" /tmp/p "), Some("/tmp/p/bin/app\n"), "/apps/x", &p).unwrap();
    assert_eq!(plan.source_root, "/tmp/p");
    assert_eq!(plan.executable_path, "/apps/x/bin/app");
}

#[test]
fn copy_roots_and_actions() {
    let roots = copy_dir_contents(&Ok("/tmp/p".to_string()), "/apps/x").unwrap();
    assert_eq!(roots.source_root, "/tmp/p");
    assert_eq!(roots.destination_root, "/apps/x");
    assert_eq!(
        copy_dir_contents(&Err("gone".to_string()), "/apps/x"),
        Err(InstallError::ReadPreviewDir("gone".to_string()))
    );
    assert_eq!(copy_action(true, true, true), CopyAction::Link);
    assert_eq!(copy_action(false, true, false), CopyAction::Descend);
    assert_eq!(copy_action(false, false, true), CopyAction::CopyFile);
    assert_eq!(copy_action(false, false, false), CopyAction::Skip);
}

#[test]
fn links_resolved_against_their_directory() {
    assert_eq!(symlink_resolution("/tmp/p/lib/libx.so", "/tmp/p", "libx.so.1"), "/tmp/p/lib/libx.so.1");
    assert_eq!(symlink_resolution("/tmp/p/a", "/tmp/p", "/usr/lib/x"), "/usr/lib/x");
    assert_eq!(symlink_resolution("", "/tmp/p", "t"), "/tmp/p/t");
}

#[test]
fn copied_links_stay_inside() {
    assert_eq!(
        copy_internal_symlink("/tmp/p", "/apps/x", "../../etc/passwd", &Ok("/etc/passwd".to_string())),
        Err(InstallError::LinkEscapesArchive)
    );
    assert_eq!(
        copy_internal_symlink("/tmp/p", "/apps/x", "/tmp/p/lib/a.so", &Ok("/tmp/p/lib/a.so".to_string())),
        Ok("/apps/x/lib/a.so".to_string())
    );
    assert_eq!(
        copy_internal_symlink("/tmp/p", "/apps/x", "a.so.1", &Ok("/tmp/p/lib/a.so.1".to_string())),
        Ok("a.so.1".to_string())
    );
    assert_eq!(
        copy_internal_symlink("/tmp/p", "/apps/x", "dangling", &Err("missing".to_string())),
        Err(InstallError::ResolveLink("missing".to_string()))
    );
}

#[test]
fn icon_plans() {
    let none = icon_probe(None, None);
    assert_eq!(
        resolve_installed_icon_path(None, Some("/tmp/p"), "/apps/x", PackageKind::Tarball, &none),
        Ok(IconPlan::NoIcon)
    );
    assert_eq!(
        resolve_installed_icon_path(Some("  "), None, "/apps/x", PackageKind::AppImage, &none),
        Ok(IconPlan::NoIcon)
    );
    assert_eq!(
        resolve_installed_icon_path(Some("/i.png"), None, "/apps/x", PackageKind::AppImage, &none),
        Err(InstallError::IconMissing)
    );
    assert_eq!(
        resolve_installed_icon_path(
            Some("/tmp/p/squashfs-root/a.png"),
            Some("/tmp/p"),
            "/apps/x",
            PackageKind::AppImage,
            &icon_probe(Some("/tmp/p/squashfs-root/a.png"), Some("/tmp/p")),
        ),
        Ok(IconPlan::CopyIntoInstallRoot("/tmp/p/squashfs-root/a.png".to_string()))
    );
    assert_eq!(
        resolve_installed_icon_path(
            Some("/usr/share/i.png"),
            Some("/tmp/p"),
            "/apps/x",
            PackageKind::AppImage,
            &icon_probe(Some("/usr/share/i.png"), Some("/tmp/p")),
        ),
        Ok(IconPlan::Use("/usr/share/i.png".to_string()))
    );
    assert_eq!(
        resolve_installed_icon_path(
            Some("/i.png"),
            Some("/tmp/p"),
            "/apps/x",
            PackageKind::AppImage,
            &icon_probe(Some("/i.png"), None),
        ),
        Err(InstallError::PreviewRootMissing)
    );
    assert_eq!(
        resolve_installed_icon_path(
            Some(" /tmp/p/share/a.png "),
            Some("/tmp/p"),
            "/apps/x",
            PackageKind::Archive,
            &icon_probe(Some("/tmp/p/share/a.png"), Some("/tmp/p")),
        ),
        Ok(IconPlan::Use("/apps/x/share/a.png".to_string()))
    );
    assert_eq!(
        resolve_installed_icon_path(
            Some("/tmp/p/a.png"),
            Some("/tmp/p"),
            "/apps/x",
            PackageKind::Archive,
            &icon_probe(None, Some("/tmp/p")),
        ),
        Err(InstallError::IconMissing)
    );
    assert_eq!(
        resolve_installed_icon_path(Some(" /i.png "), None, "/apps/x", PackageKind::Tarball, &none),
        Ok(IconPlan::Use("/i.png".to_string()))
    );
}

#[test]
fn icon_copy_destination() {
    let c = copy_icon_to_install_root("/tmp/p/a.png", "/apps/x").unwrap();
    assert_eq!(c.directory, "/apps/x/icons");
    assert_eq!(c.destination, "/apps/x/icons/a.png");
    assert_eq!(copy_icon_to_install_root("/", "/apps/x"), Err(InstallError::InvalidIconFileName));
    assert_eq!(installed_icon_outcome("/a.png".to_string(), true), Ok(Some("/a.png".to_string())));
    assert_eq!(installed_icon_outcome("/a.png".to_string(), false), Err(InstallError::IconMissing));
}

#[test]
fn command_link_plan() {
    let plan = link_to_local_bin("My App", Some("/home/u")).unwrap();
    assert_eq!(plan.directory, "/home/u/.local/bin");
    assert_eq!(plan.link_path, "/home/u/.local/bin/My-App");
    assert_eq!(link_to_local_bin("x", None), Err(InstallError::NoHome));
    assert_eq!(resolve_link_target("/home/u/.local/bin/x", "../../apps/x/run"), "/home/u/.local/bin/../../apps/x/run");
    assert_eq!(resolve_link_target("/home/u/.local/bin/x", "/apps/x/run"), "/apps/x/run");
    assert_eq!(resolve_link_target("x", "y"), "y");
}

#[test]
fn permission_bits() {
    assert_eq!(executable_mode(0o644), 0o755);
    assert_eq!(executable_mode(0o600), 0o755);
    assert_eq!(executable_mode(0o4000), 0o4755);
    assert_eq!(executable_mode(0o777), 0o777);
    assert!(!is_executable_mode(0o644));
    assert!(is_executable_mode(0o100));
    assert!(is_executable_mode(0o001));
}

#[test]
fn removal_target_and_check() {
    assert_eq!(
        uninstall_target("/apps", "  My App "),
        ("My-App".to_string(), "/apps/My-App".to_string())
    );
    assert_eq!(
        uninstall_target("/apps", "../.."),
        ("..-..".to_string(), "/apps/..-..".to_string())
    );
    assert_eq!(
        check_uninstall_root(&Err("gone".to_string()), Some("/apps/x")),
        Err(InstallError::ReadInstallDir("gone".to_string()))
    );
    assert_eq!(check_uninstall_root(&Ok("/apps".to_string()), None), Err(InstallError::AppNotInstalled));
    assert_eq!(
        check_uninstall_root(&Ok("/apps".to_string()), Some("/etc")),
        Err(InstallError::AppOutsideInstallDir)
    );
    assert_eq!(
        check_uninstall_root(&Ok("/apps".to_string()), Some("/apps-other/x")),
        Err(InstallError::AppOutsideInstallDir)
    );
    assert_eq!(check_uninstall_root(&Ok("/apps".to_string()), Some("/apps/x")), Ok("/apps/x".to_string()));
}

#[test]
fn installed_apps_sorted_by_name() {
    let app = |name: &str| InstalledApp {
        app_name: name.to_string(),
        install_root: format!("/apps/{}", name),
        executable_path: None,
        desktop_entry_path: None,
        path_link: None,
    };
    let sorted = sort_installed_apps(vec![app("zed"), app("Alpha"), app("beta"), app("alpha")]);
    let names: Vec<&str> = sorted.iter().map(|a| a.app_name.as_str()).collect();
    assert_eq!(names, vec!["Alpha", "alpha", "beta", "zed"]);
}
