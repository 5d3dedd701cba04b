use auto_installer::desktop::{
    clean_desktop_value, create_desktop_entry, desktop_exec_command, desktop_exec_path,
    desktop_exec_references_root, desktop_file_references_root, is_desktop_file, lines_of,
    normalize_categories, parse_desktop_metadata, DesktopConfig,
};
use auto_installer::errors::InstallError;
use auto_installer::model::PackageKind;

fn config(name: &str, categories: &str, terminal: bool) -> DesktopConfig {
    DesktopConfig {
        name: name.to_string(),
        icon_path: None,
        terminal,
        categories: categories.to_string(),
    }
}

#[test]
fn clean_value_drops_line_breaks_and_trims() {
    assert_eq!(clean_desktop_value("  a\nb\r  "), "ab");
    assert_eq!(clean_desktop_value("plain"), "plain");
    assert_eq!(clean_desktop_value("\n\r"), "");
    assert_eq!(clean_desktop_value("\u{3000}name\t"), "name");
}

#[test]
fn clean_value_is_idempotent_and_one_line() {
    for value in ["  a\nb\r  ", "x\n\ny", " \r\n "] {
        let once = clean_desktop_value(value);
        assert!(!once.contains('\n') && !once.contains('\r'));
        assert_eq!(clean_desktop_value(&once), once);
    }
}

#[test]
fn categories_end_with_semicolon() {
    assert_eq!(normalize_categories(""), "Utility;");
    assert_eq!(normalize_categories("\n"), "Utility;");
    assert_eq!(normalize_categories("Game"), "Game;");
    assert_eq!(normalize_categories("Dev;"), "Dev;");
    assert_eq!(normalize_categories(" Audio;Video "), "Audio;Video;");
}

#[test]
fn exec_path_quotes_only_when_needed() {
    assert_eq!(desktop_exec_path("/opt/app/run"), "/opt/app/run");
    assert_eq!(desktop_exec_path("/opt/my app/run"), "\"/opt/my app/run\"");
    assert_eq!(desktop_exec_path("/a\"b"), "\"/a\\\"b\"");
    assert_eq!(desktop_exec_path("/a\\b"), "\"/a\\\\b\"");
    assert_eq!(desktop_exec_path("/tab\there"), "\"/tab\there\"");
}

#[test]
fn exec_command_disables_appimage_launcher() {
    assert_eq!(
        desktop_exec_command("/x/App.AppImage", PackageKind::AppImage),
        "env APPIMAGELAUNCHER_DISABLE=1 /x/App.AppImage"
    );
    assert_eq!(
        desktop_exec_command("/x y/App.AppImage", PackageKind::AppImage),
        "env APPIMAGELAUNCHER_DISABLE=1 \"/x y/App.AppImage\""
    );
    assert_eq!(desktop_exec_command("/x/run", PackageKind::Tarball), "/x/run");
    assert_eq!(desktop_exec_command("/x/run", PackageKind::Archive), "/x/run");
}

#[test]
fn exec_value_references_root() {
    assert!(desktop_exec_references_root(
        "\"/home/u/apps/My App/run\"",
        "/home/u/apps/My App"
    ));
    assert!(desktop_exec_references_root(
        "\"/home/u/a\\\"b/run\"",
        "/home/u/a\"b"
    ));
    assert!(!desktop_exec_references_root("env X=1 /a/b", "/c"));
}

#[test]
fn lines_split_like_str_lines() {
    let lines = lines_of("a\r\nb\n\nc");
    let texts: Vec<String> = lines.iter().map(|l| l.iter().collect()).collect();
    assert_eq!(texts, vec!["a", "b", "", "c"]);
    assert!(lines_of("").is_empty());
    assert_eq!(lines_of("x\n").len(), 1);
}

#[test]
fn metadata_takes_first_values_of_desktop_entry() {
    let m = parse_desktop_metadata(
        "[Desktop Entry]\nName=Foo\nIcon=foo\nTerminal=TRUE\nCategories=Game;\nName=Bar\n",
    );
    assert_eq!(m.name.as_deref(), Some("Foo"));
    assert_eq!(m.icon.as_deref(), Some("foo"));
    assert_eq!(m.terminal, Some(true));
    assert_eq!(m.categories.as_deref(), Some("Game;"));
}

#[test]
fn metadata_ignores_other_groups_comments_and_bad_lines() {
    let m = parse_desktop_metadata(
        "Name=Outside\n[Other]\nName=X\n# comment\n[desktop entry]\n\nnot a pair\n Name = Spaced \r\nTerminal=no\n",
    );
    assert_eq!(m.name.as_deref(), Some("Spaced"));
    assert_eq!(m.icon, None);
    assert_eq!(m.terminal, Some(false));
    assert_eq!(m.categories, None);
}

#[test]
fn metadata_of_empty_text_is_empty() {
    let m = parse_desktop_metadata("");
    assert_eq!(m.name, None);
    assert_eq!(m.icon, None);
    assert_eq!(m.terminal, None);
    assert_eq!(m.categories, None);
}

#[test]
fn launcher_for_archive() {
    let plan = create_desktop_entry(
        &config("My App", "Utility", false),
        "myapp",
        "/h/apps/myapp/run",
        PackageKind::Tarball,
        None,
        Some("/h"),
    )
    .unwrap();
    assert_eq!(plan.directory, "/h/.local/share/applications");
    assert_eq!(plan.path, "/h/.local/share/applications/My-App.desktop");
    assert_eq!(
        plan.content,
        "[Desktop Entry]\nType=Application\nName=My App\nExec=/h/apps/myapp/run\nTerminal=false\nCategories=Utility;\n"
    );
}

#[test]
fn launcher_for_appimage_with_icon_and_blank_name() {
    let plan = create_desktop_entry(
        &config(" \n ", "", true),
        "Foo",
        "/h/apps/Foo/Foo.AppImage",
        PackageKind::AppImage,
        Some(" /h/apps/Foo/icons/foo.png\n"),
        Some("/h"),
    )
    .unwrap();
    assert_eq!(plan.path, "/h/.local/share/applications/Foo.desktop");
    assert_eq!(
        plan.content,
        "[Desktop Entry]\nType=Application\nName=Foo\nExec=env APPIMAGELAUNCHER_DISABLE=1 /h/apps/Foo/Foo.AppImage\nTerminal=true\nCategories=Utility;\nIcon=/h/apps/Foo/icons/foo.png\n"
    );
}

#[test]
fn launcher_needs_home() {
    let r = create_desktop_entry(
        &config("x", "", false),
        "x",
        "/x/run",
        PackageKind::Tarball,
        None,
        None,
    );
    assert_eq!(r, Err(InstallError::NoHome));
}

#[test]
fn written_launcher_is_found_for_its_root() {
    let root = "/home/u/apps/My Tool";
    let plan = create_desktop_entry(
        &config("Tool", "", false),
        "My-Tool",
        "/home/u/apps/My Tool/bin/tool",
        PackageKind::Archive,
        None,
        Some("/home/u"),
    )
    .unwrap();
    assert!(desktop_file_references_root(&plan.content, root));
    assert!(!desktop_file_references_root(&plan.content, "/home/u/apps/Other"));
}

#[test]
fn launcher_files_by_exact_extension() {
    assert!(is_desktop_file("/a/b.desktop"));
    assert!(!is_desktop_file("/a/b.DESKTOP"));
    assert!(!is_desktop_file("/a/desktop"));
    assert!(!is_desktop_file("/a/.desktop"));
}

#[test]
fn launcher_text_references_root_through_exec_line() {
    assert!(desktop_file_references_root(
        "[Desktop Entry]\n  Exec=/r/app/run %U\n",
        "/r/app"
    ));
    assert!(!desktop_file_references_root("[Desktop Entry]\nName=/r/app\n", "/r/app"));
    assert!(!desktop_file_references_root("", "/r/app"));
}

#[test]
fn exec_value_names_root_with_quotes() {
    let root = "/opt/a\"b";
    for kind in [PackageKind::AppImage, PackageKind::Archive, PackageKind::Tarball] {
        let exec = desktop_exec_command("/opt/a\"b/run x", kind);
        assert!(desktop_exec_references_root(&exec, root));
        let exec = desktop_exec_command("/opt/a\"b/run\\x", kind);
        assert!(desktop_exec_references_root(&exec, root));
    }
}

#[test]
fn written_launcher_found_with_quoted_root_and_break_after_root() {
    let root = "/home/u/apps/a\"b";
    let plan = create_desktop_entry(
        &config("Tool", "", false),
        "Tool",
        "/home/u/apps/a\"b/bin\ntool",
        PackageKind::Archive,
        None,
        Some("/home/u"),
    )
    .unwrap();
    assert!(desktop_file_references_root(&plan.content, root));
    // A root ending in white space is cut by the trim of a broken line.
    let plan = create_desktop_entry(
        &config("Tool", "", false),
        "Tool",
        "/r \nx",
        PackageKind::Archive,
        None,
        Some("/home/u"),
    )
    .unwrap();
    assert!(!desktop_file_references_root(&plan.content, "/r "));
}

#[test]
fn written_launcher_path_is_a_launcher_file() {
    for name in ["Tool", "..", "a b", ""] {
        let plan = create_desktop_entry(
            &config(name, "", false),
            "app",
            "/opt/app/run",
            PackageKind::Archive,
            None,
            Some("/home/u"),
        )
        .unwrap();
        assert!(is_desktop_file(&plan.path), "{}", plan.path);
        assert!(plan.path.starts_with("/home/u/.local/share/applications/"));
    }
}
