use auto_installer::errors::InstallError;
use auto_installer::names::{
    app_name_from_path, app_name_of_path, expand_home, path_ends_with, preview_dir_path, sanitize_file_stem,
    strip_package_suffix, validate_install_dir,
};

#[test]
fn sanitize_replaces_and_trims() {
    assert_eq!(sanitize_file_stem("My App!"), "My-App");
    assert_eq!(sanitize_file_stem("a b"), "a-b");
    assert_eq!(sanitize_file_stem("  x  "), "x");
    assert_eq!(sanitize_file_stem("keep_these.chars-1"), "keep_these.chars-1");
    assert_eq!(sanitize_file_stem("中文.AppImage"), ".AppImage");
}

#[test]
fn sanitize_empty_becomes_application() {
    assert_eq!(sanitize_file_stem(""), "application");
    assert_eq!(sanitize_file_stem("---"), "application");
    assert_eq!(sanitize_file_stem("!!!"), "application");
}

#[test]
fn sanitize_is_idempotent_on_examples() {
    for value in ["a b!", "", "中文", "-x-", "Good_Name.1"] {
        let once = sanitize_file_stem(value);
        assert_eq!(sanitize_file_stem(&once), once);
    }
}

#[test]
fn sanitized_names_are_clean_stems() {
    for value in ["../../etc", "/", "a/b", " - ", "x\ny"] {
        let stem = sanitize_file_stem(value);
        assert!(!stem.is_empty());
        assert!(stem
            .chars()
            .all(|c| c.is_ascii_alphanumeric() || c == '-' || c == '_' || c == '.'));
        assert!(!stem.starts_with('-') && !stem.ends_with('-'));
        assert!(!stem.contains('/'));
    }
}

#[test]
fn app_name_strips_package_suffix() {
    assert_eq!(app_name_of_path("/home/u/Downloads/Foo-1.2.AppImage"), "Foo-1.2");
    assert_eq!(app_name_of_path("/tmp/pkg.tar.gz"), "pkg");
    assert_eq!(app_name_of_path("/tmp/Tool.TGZ"), "Tool");
    assert_eq!(app_name_of_path("/tmp/a.tar.xz"), "a");
    assert_eq!(app_name_of_path("/tmp/b.tar.bz2"), "b");
    assert_eq!(app_name_of_path("/tmp/c.zip"), "c");
    assert_eq!(app_name_of_path("/tmp/noext"), "noext");
    assert_eq!(app_name_of_path("/tmp/My Editor.AppImage"), "My-Editor");
}

#[test]
fn app_name_falls_back_to_application() {
    assert_eq!(app_name_of_path("/"), "application");
    assert_eq!(app_name_of_path("/tmp/.zip"), "application");
    assert_eq!(app_name_of_path(""), "application");
}

#[test]
fn strip_suffix_uses_lowercase_form() {
    assert_eq!(strip_package_suffix("App.ZIP", "app.zip"), "App");
    assert_eq!(strip_package_suffix("App.tar", "app.tar"), "App.tar");
    assert_eq!(strip_package_suffix("X.tar.gz", "x.tar.gz"), "X");
}

#[test]
fn path_ends_with_ignores_case_of_file_name() {
    assert!(path_ends_with("/a/B.TAR.GZ", ".tar.gz"));
    assert!(path_ends_with("/a/b.tgz", ".tgz"));
    assert!(!path_ends_with("/a/b.txt", ".tar.gz"));
    assert!(!path_ends_with("/", ".zip"));
    assert!(!path_ends_with("/x.tar.gz/..", ".tar.gz"));
}

#[test]
fn expand_home_reads_tilde() {
    assert_eq!(expand_home("~", Some("/home/u")), Ok("/home/u".to_string()));
    assert_eq!(expand_home("~/apps", Some("/home/u")), Ok("/home/u/apps".to_string()));
    assert_eq!(expand_home("~", None), Err(InstallError::NoHome));
    assert_eq!(expand_home("~/x", None), Err(InstallError::NoHome));
    assert_eq!(expand_home("/opt", None), Ok("/opt".to_string()));
    assert_eq!(expand_home("~user", Some("/home/u")), Ok("~user".to_string()));
}

#[test]
fn install_dir_is_checked() {
    assert_eq!(validate_install_dir("  ~/x  ", Some("/h")), Ok("/h/x".to_string()));
    assert_eq!(validate_install_dir("/opt/apps", None), Ok("/opt/apps".to_string()));
    assert_eq!(validate_install_dir("", Some("/h")), Err(InstallError::EmptyInstallDir));
    assert_eq!(validate_install_dir("   ", Some("/h")), Err(InstallError::EmptyInstallDir));
    assert_eq!(validate_install_dir("rel/dir", Some("/h")), Err(InstallError::RelativeInstallDir));
    assert_eq!(validate_install_dir("~", None), Err(InstallError::NoHome));
    assert_eq!(validate_install_dir("~", Some("")), Err(InstallError::EmptyInstallDir));
}

#[test]
fn preview_dir_is_named_by_app_pid_and_time() {
    assert_eq!(
        preview_dir_path("/tmp", "My App", 42, 1700000000000),
        "/tmp/auto-installer-My-App-42-1700000000000"
    );
    assert_eq!(preview_dir_path("/tmp/", "x", 0, 0), "/tmp/auto-installer-x-0-0");
}

#[test]
fn app_name_from_file_name_text() {
    assert_eq!(app_name_from_path(Some("Foo-1.2.AppImage")), "Foo-1.2");
    assert_eq!(app_name_from_path(Some("pkg.TAR.GZ")), "pkg");
    assert_eq!(app_name_from_path(Some("a b.zip")), "a-b");
    // A name that is not text, or no name at all.
    assert_eq!(app_name_from_path(None), "application");
}

#[test]
fn app_name_of_dotted_packages() {
    assert_eq!(app_name_of_path("/tmp/...zip"), "..");
    assert_eq!(app_name_of_path("/tmp/..zip"), ".");
}
