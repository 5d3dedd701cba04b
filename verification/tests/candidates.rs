use auto_installer::candidates::{
    candidate_score, executable_candidate, executable_candidates, executable_files,
    find_desktop_files, find_files_by_extension, find_icon_candidates, icon_candidate,
    icon_ranks, order_executables, paths_of_files, read_desktop_suggestion, resolve_icon_value,
    score_from_name, IconCandidate,
};
use auto_installer::desktop::DesktopMetadata;

fn strings(v: &[&str]) -> Vec<String> {
    v.iter().map(|s| s.to_string()).collect()
}

fn icon(path: &str, file_name: &str) -> IconCandidate {
    IconCandidate {
        path: path.to_string(),
        relative_path: file_name.to_string(),
        file_name: file_name.to_string(),
    }
}

fn no_metadata() -> DesktopMetadata {
    DesktopMetadata { name: None, icon: None, terminal: None, categories: None }
}

#[test]
fn score_ranks_bin_plain_script_launcher() {
    assert_eq!(candidate_score("/a/bin/tool"), 0);
    assert_eq!(candidate_score("/a/tool"), 1);
    assert_eq!(candidate_score("/a/run.sh"), 2);
    assert_eq!(candidate_score("/a/x.desktop"), 3);
    assert_eq!(candidate_score("/bin"), 0);
    assert_eq!(candidate_score("/a/binary"), 1);
}

#[test]
fn score_reads_the_lowercase_file_name() {
    assert_eq!(candidate_score("/a/RUN.SH"), 2);
    assert_eq!(candidate_score("/a/bin/App.Desktop"), 3);
    assert_eq!(score_from_name("run.sh", "/a/RUN.SH"), 2);
    assert_eq!(score_from_name("RUN.SH", "/a/RUN.SH"), 1);
}

#[test]
fn executable_candidate_relative_to_root() {
    let c = executable_candidate("/p/root/bin/app", "/p/root").unwrap();
    assert_eq!(c.path, "/p/root/bin/app");
    assert_eq!(c.relative_path, "bin/app");
    assert_eq!(c.file_name, "app");
    assert_eq!(c.score, 0);
    let d = executable_candidate("/elsewhere/run.sh", "/p/root").unwrap();
    assert_eq!(d.relative_path, "run.sh");
    assert_eq!(d.score, 2);
    let e = executable_candidate("/", "/p").unwrap();
    assert_eq!(e.file_name, "executable");
    assert_eq!(e.relative_path, "executable");
}

#[test]
fn icon_candidate_relative_to_root() {
    let c = icon_candidate("/r/share/icons/app.png", "/r").unwrap();
    assert_eq!(c.relative_path, "share/icons/app.png");
    assert_eq!(c.file_name, "app.png");
    let d = icon_candidate("/", "/r").unwrap();
    assert_eq!(d.file_name, "icon");
}

#[test]
fn files_by_extension_sorted_by_components() {
    let files = strings(&["/r/b.PNG", "/r/a.png", "/r/c.svg", "/r/a/z.png", "/r/noext"]);
    let found = find_files_by_extension(&files, &["png"]);
    assert_eq!(found, strings(&["/r/a/z.png", "/r/a.png", "/r/b.PNG"]));
    let both = find_files_by_extension(&files, &["svg", "png"]);
    assert_eq!(both, strings(&["/r/a/z.png", "/r/a.png", "/r/b.PNG", "/r/c.svg"]));
    assert!(find_files_by_extension(&files, &[]).is_empty());
}

#[test]
fn desktop_files_found_case_insensitively() {
    let files = strings(&["/r/z.desktop", "/r/A.DESKTOP", "/r/x.txt"]);
    assert_eq!(find_desktop_files(&files), strings(&["/r/A.DESKTOP", "/r/z.desktop"]));
}

#[test]
fn icon_ranks_from_lowercase_path() {
    assert_eq!(icon_ranks("/r/icons/hicolor/256x256/apps/app.png"), (0, 0));
    assert_eq!(icon_ranks("/r/128/x.svg"), (1, 1));
    assert_eq!(icon_ranks("/r/app.png"), (1, 2));
    assert_eq!(icon_ranks("/r/512/apps/a.png"), (0, 0));
}

#[test]
fn icons_ranked_then_limited() {
    let files = strings(&[
        "/r/app.png",
        "/r/128/x.svg",
        "/r/icons/hicolor/256x256/apps/app.png",
        "/r/readme.txt",
        "/r/B.ICO",
    ]);
    assert_eq!(
        find_icon_candidates(&files),
        strings(&["/r/icons/hicolor/256x256/apps/app.png", "/r/128/x.svg", "/r/app.png", "/r/B.ICO"])
    );
    let many: Vec<String> = (0..60).map(|i| format!("/r/i{:02}.png", i)).collect();
    let chosen = find_icon_candidates(&many);
    assert_eq!(chosen.len(), 50);
    assert_eq!(chosen[0], "/r/i00.png");
    assert_eq!(chosen[49], "/r/i49.png");
}

#[test]
fn executables_ordered_by_score_then_name() {
    let paths = strings(&["/r/run.sh", "/r/bin/app", "/r/zeta", "/r/alpha", "/r/x/alpha"]);
    assert_eq!(
        order_executables(paths),
        strings(&["/r/bin/app", "/r/alpha", "/r/x/alpha", "/r/zeta", "/r/run.sh"])
    );
}

#[test]
fn executable_files_by_mode() {
    let files = vec![
        ("/r/a".to_string(), 0o755),
        ("/r/b".to_string(), 0o644),
        ("/r/c".to_string(), 0o010),
    ];
    assert_eq!(executable_files(&files), strings(&["/r/a", "/r/c"]));
    assert_eq!(paths_of_files(&files), strings(&["/r/a", "/r/b", "/r/c"]));
    let cands = executable_candidates(&strings(&["/r/bin/a", "/r/b.sh"]), "/r");
    assert_eq!(cands.len(), 2);
    assert_eq!(cands[0].relative_path, "bin/a");
    assert_eq!(cands[1].score, 2);
}

#[test]
fn icon_value_resolution_order() {
    let icons = vec![icon("/r/x/other.png", "other.png"), icon("/r/x/myapp.svg", "myapp.svg")];
    assert_eq!(resolve_icon_value("/r", "  ", &icons, true, true), None);
    assert_eq!(
        resolve_icon_value("/r", "/abs/i.png", &icons, true, false),
        Some("/abs/i.png".to_string())
    );
    assert_eq!(
        resolve_icon_value("/r", "share/icon.png", &icons, false, true),
        Some("/r/share/icon.png".to_string())
    );
    assert_eq!(
        resolve_icon_value("/r", "myapp", &icons, false, false),
        Some("/r/x/myapp.svg".to_string())
    );
    assert_eq!(
        resolve_icon_value("/r", "myapp.png", &icons, false, false),
        Some("/r/x/myapp.svg".to_string())
    );
    assert_eq!(resolve_icon_value("/r", "missing", &icons, false, false), None);
    assert_eq!(
        resolve_icon_value("/r", "other", &icons, true, false),
        Some("/r/x/other.png".to_string())
    );
}

#[test]
fn suggestion_defaults() {
    let s = read_desktop_suggestion("/r", "Fallback", &[], &no_metadata(), false, false);
    assert_eq!(s.name, "Fallback");
    assert_eq!(s.icon_path, None);
    assert_eq!(s.icon_relative_path, None);
    assert!(!s.terminal);
    assert_eq!(s.categories, "Utility;");
}

#[test]
fn suggestion_from_metadata_and_icons() {
    let icons = vec![icon("/r/share/first.png", "first.png"), icon("/r/x/tool.svg", "tool.svg")];
    let m = DesktopMetadata {
        name: Some("Tool".to_string()),
        icon: Some("tool".to_string()),
        terminal: Some(true),
        categories: Some("Development;".to_string()),
    };
    let s = read_desktop_suggestion("/r", "fallback", &icons, &m, false, false);
    assert_eq!(s.name, "Tool");
    assert_eq!(s.icon_path.as_deref(), Some("/r/x/tool.svg"));
    assert_eq!(s.icon_relative_path.as_deref(), Some("x/tool.svg"));
    assert!(s.terminal);
    assert_eq!(s.categories, "Development;");

    let unnamed = read_desktop_suggestion("/r", "fallback", &icons, &no_metadata(), false, false);
    assert_eq!(unnamed.icon_path.as_deref(), Some("/r/share/first.png"));
    assert_eq!(unnamed.icon_relative_path.as_deref(), Some("share/first.png"));

    let outside = read_desktop_suggestion(
        "/r",
        "f",
        &[],
        &DesktopMetadata { icon: Some("/usr/share/x.png".to_string()), ..no_metadata() },
        true,
        false,
    );
    assert_eq!(outside.icon_path.as_deref(), Some("/usr/share/x.png"));
    assert_eq!(outside.icon_relative_path, None);
}
