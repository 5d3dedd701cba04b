use auto_installer::candidates::{DesktopSuggestion, ExecutableCandidate, IconCandidate};
use auto_installer::errors::{InstallError, IoStep};
use auto_installer::model::{done_step, skipped_step, StepStatus};
use auto_installer::report::{finish_preview, report_step, report_steps, Report};

fn suggestion() -> DesktopSuggestion {
    DesktopSuggestion {
        name: "x".to_string(),
        icon_path: None,
        icon_relative_path: None,
        terminal: false,
        categories: "Utility;".to_string(),
    }
}

fn exe(path: &str) -> ExecutableCandidate {
    ExecutableCandidate {
        path: path.to_string(),
        relative_path: path.to_string(),
        file_name: path.to_string(),
        score: 1,
    }
}

#[test]
fn steps_keep_title_and_detail() {
    let d = done_step("标题".to_string(), "细节".to_string());
    assert_eq!(d.title, "标题");
    assert_eq!(d.status, StepStatus::Done);
    assert_eq!(d.detail, "细节");
    let s = skipped_step("a".to_string(), "b".to_string());
    assert_eq!(s.status, StepStatus::Skipped);
}

#[test]
fn report_texts() {
    let s = report_step(&Report::Extracted { appimage: true, root: "/tmp/p/squashfs-root".to_string() });
    assert_eq!(s.title, "临时解压");
    assert_eq!(s.detail, "已解包 AppImage 到 /tmp/p/squashfs-root");
    let s = report_step(&Report::Extracted { appimage: false, root: "/tmp/p".to_string() });
    assert_eq!(s.detail, "已解压到 /tmp/p");
    let s = report_step(&Report::ExecutablesFound { count: 12 });
    assert_eq!(s.title, "查找入口");
    assert_eq!(s.detail, "检测到 12 个可执行文件");
    let s = report_step(&Report::IconsFound { count: 0 });
    assert_eq!(s.detail, "检测到 0 个图标文件");
    let s = report_step(&Report::LauncherSkipped);
    assert_eq!(s.title, "桌面入口");
    assert_eq!(s.status, StepStatus::Skipped);
    assert_eq!(s.detail, "已按选项跳过创建 .desktop 文件");
    let s = report_step(&Report::LinkNotFound);
    assert_eq!(s.title, "PATH 链接");
    assert_eq!(s.status, StepStatus::Skipped);
    assert_eq!(s.detail, "未找到指向该应用的命令行链接");
    let s = report_step(&Report::MadeExecutable);
    assert_eq!((s.title.as_str(), s.detail.as_str()), ("执行权限", "已设置为可执行"));
    let s = report_step(&Report::FilesRemoved { root: "/apps/x".to_string() });
    assert_eq!((s.title.as_str(), s.status, s.detail.as_str()), ("应用文件", StepStatus::Done, "已删除 /apps/x"));
    let all = report_steps(&vec![Report::LinkSkipped, Report::EntryChosen { path: "/a".to_string() }]);
    assert_eq!(all.len(), 2);
    assert_eq!(all[0].detail, "已按选项跳过命令行链接");
    assert_eq!(all[1].detail, "使用 /a");
}

#[test]
fn preview_needs_an_executable() {
    let r = finish_preview("/tmp/p".to_string(), vec![], vec![], suggestion(), vec![]);
    assert_eq!(r, Err(InstallError::NoExecutables));
}

#[test]
fn preview_appends_found_steps() {
    let icon = IconCandidate {
        path: "/tmp/p/a.png".to_string(),
        relative_path: "a.png".to_string(),
        file_name: "a.png".to_string(),
    };
    let start = vec![report_step(&Report::Extracted { appimage: false, root: "/tmp/p".to_string() })];
    let r = finish_preview("/tmp/p".to_string(), vec![exe("/tmp/p/a"), exe("/tmp/p/b")], vec![icon], suggestion(), start)
        .unwrap();
    let details: Vec<&str> = r.steps.iter().map(|s| s.detail.as_str()).collect();
    assert_eq!(details, vec!["已解压到 /tmp/p", "检测到 2 个可执行文件", "检测到 1 个图标文件"]);
    let r = finish_preview("/tmp/p".to_string(), vec![exe("/tmp/p/a")], vec![], suggestion(), vec![]).unwrap();
    assert_eq!(r.steps.len(), 1);
}

#[test]
fn error_messages() {
    assert_eq!(InstallError::EmptyInstallDir.message(), "安装目录不能为空");
    assert_eq!(
        InstallError::ReadSource("没有那个文件".to_string()).message(),
        "读取安装文件失败：没有那个文件"
    );
    assert_eq!(InstallError::NoHome.message(), "无法读取 HOME 环境变量");
    assert_eq!(
        InstallError::Io(IoStep::CreateInstallDir, "denied".to_string()).message(),
        "创建安装目录失败：denied"
    );
    assert_eq!(
        InstallError::Io(IoStep::DeleteAppDir, "busy".to_string()).message(),
        "删除应用目录失败：busy"
    );
    assert_eq!(
        InstallError::LinkEscapesArchive.message(),
        "压缩包包含指向解压目录外的符号链接，已停止安装"
    );
}
