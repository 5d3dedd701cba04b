//! The report shown after a preview, an installation or a removal: one
//! step per thing done or skipped, and the response of a preview.
use vstd::prelude::*;
use crate::candidates::{DesktopSuggestion, ExecutableCandidate, IconCandidate};
use crate::errors::InstallError;
use crate::model::{done_step, skipped_step, InstallStep, StepStatus};
use crate::text::{decimal, owned, push_decimal, from_chars, to_chars};

verus! {

/// Something done or skipped.
#[derive(Debug, Clone, PartialEq, Eq)]
pub enum Report {
    /// A package was unpacked for preview (an AppImage unpacks itself).
    Extracted { appimage: bool, root: String },
    /// Executables were found.
    ExecutablesFound { count: usize },
    /// Icons were found.
    IconsFound { count: usize },
    /// The installation directory was created.
    DirectoryPrepared { root: String },
    /// An AppImage was copied.
    AppImageCopied { path: String },
    /// The executable was made executable.
    MadeExecutable,
    /// An extracted archive was copied.
    ArchiveCopied { root: String },
    /// The executable to start was chosen.
    EntryChosen { path: String },
    /// A launcher was written.
    LauncherCreated { path: String },
    /// No launcher was asked for.
    LauncherSkipped,
    /// A command-line link was made.
    LinkCreated { path: String },
    /// No command-line link was asked for.
    LinkSkipped,
    /// A launcher was removed.
    LauncherRemoved { path: String },
    /// No launcher of the application was found.
    LauncherNotFound,
    /// A command-line link was removed.
    LinkRemoved { path: String },
    /// No command-line link of the application was found.
    LinkNotFound,
    /// The application's files were removed.
    FilesRemoved { root: String },
}

/// The title of a report.
pub open spec fn report_title(r: Report) -> Seq<char> {
    match r {
        Report::Extracted { .. } => "临时解压"@,
        Report::ExecutablesFound { .. } => "查找入口"@,
        Report::IconsFound { .. } => "读取图标"@,
        Report::DirectoryPrepared { .. } => "准备目录"@,
        Report::AppImageCopied { .. } => "复制文件"@,
        Report::MadeExecutable => "执行权限"@,
        Report::ArchiveCopied { .. } => "复制文件"@,
        Report::EntryChosen { .. } => "确认入口"@,
        Report::LauncherCreated { .. } => "桌面入口"@,
        Report::LauncherSkipped => "桌面入口"@,
        Report::LinkCreated { .. } => "PATH 链接"@,
        Report::LinkSkipped => "PATH 链接"@,
        Report::LauncherRemoved { .. } => "桌面入口"@,
        Report::LauncherNotFound => "桌面入口"@,
        Report::LinkRemoved { .. } => "PATH 链接"@,
        Report::LinkNotFound => "PATH 链接"@,
        Report::FilesRemoved { .. } => "应用文件"@,
    }
}

/// The detail of a report.
pub open spec fn report_detail(r: Report) -> Seq<char> {
    match r {
        Report::Extracted { appimage, root } => if appimage {
            "已解包 AppImage 到 "@ + root@
        } else {
            "已解压到 "@ + root@
        },
        Report::ExecutablesFound { count } => "检测到 "@ + decimal(count as nat) + " 个可执行文件"@,
        Report::IconsFound { count } => "检测到 "@ + decimal(count as nat) + " 个图标文件"@,
        Report::DirectoryPrepared { root } => "已创建 "@ + root@,
        Report::AppImageCopied { path } => "已复制到 "@ + path@,
        Report::MadeExecutable => "已设置为可执行"@,
        Report::ArchiveCopied { root } => "已从临时目录复制到 "@ + root@,
        Report::EntryChosen { path } => "使用 "@ + path@,
        Report::LauncherCreated { path } => "已创建 "@ + path@,
        Report::LauncherSkipped => "已按选项跳过创建 .desktop 文件"@,
        Report::LinkCreated { path } => "已链接到 "@ + path@,
        Report::LinkSkipped => "已按选项跳过命令行链接"@,
        Report::LauncherRemoved { path } => "已删除 "@ + path@,
        Report::LauncherNotFound => "未找到指向该应用的 .desktop 文件"@,
        Report::LinkRemoved { path } => "已删除 "@ + path@,
        Report::LinkNotFound => "未找到指向该应用的命令行链接"@,
        Report::FilesRemoved { root } => "已删除 "@ + root@,
    }
}

/// Whether a report tells of something skipped.
pub open spec fn report_skipped(r: Report) -> bool {
    match r {
        Report::LauncherSkipped | Report::LinkSkipped | Report::LauncherNotFound
        | Report::LinkNotFound => true,
        _ => false,
    }
}

/// The contents of a step.
pub open spec fn step_view(s: InstallStep) -> (Seq<char>, StepStatus, Seq<char>) {
    (s.title@, s.status, s.detail@)
}

/// The contents of a step that tells `r`.
pub open spec fn report_view(r: Report) -> (Seq<char>, StepStatus, Seq<char>) {
    (
        report_title(r),
        if report_skipped(r) {
            StepStatus::Skipped
        } else {
            StepStatus::Done
        },
        report_detail(r),
    )
}

fn text_then(prefix: &str, rest: &String) -> (r: String)
    ensures
        r@ == prefix@ + rest@,
{
    let mut s = owned(prefix);
    s.append(rest.as_str());
    s
}

fn count_text(prefix: &str, count: usize, suffix: &str) -> (r: String)
    ensures
        r@ == prefix@ + decimal(count as nat) + suffix@,
{
    let mut v = to_chars(prefix);
    push_decimal(&mut v, count as u128);
    let s = to_chars(suffix);
    crate::text::push_all(&mut v, s.as_slice());
    from_chars(v.as_slice())
}

/// The step that tells `r`.
pub fn report_step(r: &Report) -> (s: InstallStep)
    ensures
        step_view(s) == report_view(*r),
{
    match r {
        Report::Extracted { appimage, root } => done_step(
            owned("临时解压"),
            if *appimage {
                text_then("已解包 AppImage 到 ", root)
            } else {
                text_then("已解压到 ", root)
            },
        ),
        Report::ExecutablesFound { count } => done_step(
            owned("查找入口"),
            count_text("检测到 ", *count, " 个可执行文件"),
        ),
        Report::IconsFound { count } => done_step(
            owned("读取图标"),
            count_text("检测到 ", *count, " 个图标文件"),
        ),
        Report::DirectoryPrepared { root } => done_step(owned("准备目录"), text_then("已创建 ", root)),
        Report::AppImageCopied { path } => done_step(owned("复制文件"), text_then("已复制到 ", path)),
        Report::MadeExecutable => done_step(owned("执行权限"), owned("已设置为可执行")),
        Report::ArchiveCopied { root } => done_step(
            owned("复制文件"),
            text_then("已从临时目录复制到 ", root),
        ),
        Report::EntryChosen { path } => done_step(owned("确认入口"), text_then("使用 ", path)),
        Report::LauncherCreated { path } => done_step(owned("桌面入口"), text_then("已创建 ", path)),
        Report::LauncherSkipped => skipped_step(
            owned("桌面入口"),
            owned("已按选项跳过创建 .desktop 文件"),
        ),
        Report::LinkCreated { path } => done_step(owned("PATH 链接"), text_then("已链接到 ", path)),
        Report::LinkSkipped => skipped_step(owned("PATH 链接"), owned("已按选项跳过命令行链接")),
        Report::LauncherRemoved { path } => done_step(owned("桌面入口"), text_then("已删除 ", path)),
        Report::LauncherNotFound => skipped_step(
            owned("桌面入口"),
            owned("未找到指向该应用的 .desktop 文件"),
        ),
        Report::LinkRemoved { path } => done_step(owned("PATH 链接"), text_then("已删除 ", path)),
        Report::LinkNotFound => skipped_step(
            owned("PATH 链接"),
            owned("未找到指向该应用的命令行链接"),
        ),
        Report::FilesRemoved { root } => done_step(owned("应用文件"), text_then("已删除 ", root)),
    }
}

/// The contents of each step.
pub open spec fn steps_view(v: Seq<InstallStep>) -> Seq<(Seq<char>, StepStatus, Seq<char>)> {
    v.map_values(|s: InstallStep| step_view(s))
}

/// The contents of the steps that tell `reports`, in order.
pub open spec fn reports_view(reports: Seq<Report>) -> Seq<(Seq<char>, StepStatus, Seq<char>)> {
    reports.map_values(|r: Report| report_view(r))
}

/// The steps that tell `reports`, in order.
pub fn report_steps(reports: &Vec<Report>) -> (s: Vec<InstallStep>)
    ensures
        steps_view(s@) == reports_view(reports@),
{
    let mut out: Vec<InstallStep> = Vec::new();
    let n = reports.len();
    for i in 0..n
        invariant
            n == reports@.len(),
            steps_view(out@) == reports_view(reports@.take(i as int)),
    {
        let ghost before = out@;
        let step = report_step(&reports[i]);
        out.push(step);
        assert(steps_view(out@) =~= steps_view(before).push(report_view(reports@[i as int])));
        assert(reports@.take(i + 1) =~= reports@.take(i as int).push(reports@[i as int]));
        assert(reports_view(reports@.take(i + 1)) =~= reports_view(reports@.take(i as int)).push(
            report_view(reports@[i as int]),
        ));
    }
    assert(reports@.take(n as int) =~= reports@);
    out
}

/// What a preview shows.
#[derive(Debug, Clone, PartialEq, Eq)]
pub struct PreviewResponse {
    pub preview_root: String,
    pub executables: Vec<ExecutableCandidate>,
    pub icon_candidates: Vec<IconCandidate>,
    pub desktop_suggestion: DesktopSuggestion,
    pub steps: Vec<InstallStep>,
}

/// The steps a preview ends with: the executables found, then the icons
/// found if there are any.
pub open spec fn preview_steps(
    done: Seq<(Seq<char>, StepStatus, Seq<char>)>,
    executables: nat,
    icons: nat,
) -> Seq<(Seq<char>, StepStatus, Seq<char>)> {
    let found = done.push(
        report_view(Report::ExecutablesFound { count: executables as usize }),
    );
    if icons > 0 {
        found.push(report_view(Report::IconsFound { count: icons as usize }))
    } else {
        found
    }
}

/// The response of a preview: refused when no executable was found;
/// otherwise the findings, with the steps so far followed by the
/// `preview_steps`.
pub fn finish_preview(
    preview_root: String,
    executables: Vec<ExecutableCandidate>,
    icon_candidates: Vec<IconCandidate>,
    desktop_suggestion: DesktopSuggestion,
    steps: Vec<InstallStep>,
) -> (r: Result<PreviewResponse, InstallError>)
    ensures
        executables@.len() == 0 ==> r == Err::<PreviewResponse, InstallError>(
            InstallError::NoExecutables,
        ),
        executables@.len() > 0 ==> (r matches Ok(p) && p.preview_root == preview_root
            && p.executables == executables && p.icon_candidates == icon_candidates
            && p.desktop_suggestion == desktop_suggestion && steps_view(p.steps@) == preview_steps(
            steps_view(steps@),
            executables@.len(),
            icon_candidates@.len(),
        )),
{
    if executables.len() == 0 {
        return Err(InstallError::NoExecutables);
    }
    let mut steps = steps;
    let ghost before = steps@;
    let found = report_step(&Report::ExecutablesFound { count: executables.len() });
    steps.push(found);
    assert(steps_view(steps@) =~= steps_view(before).push(
        report_view(Report::ExecutablesFound { count: executables@.len() as usize }),
    ));
    if icon_candidates.len() > 0 {
        let ghost mid = steps@;
        let icons = report_step(&Report::IconsFound { count: icon_candidates.len() });
        steps.push(icons);
        assert(steps_view(steps@) =~= steps_view(mid).push(
            report_view(Report::IconsFound { count: icon_candidates@.len() as usize }),
        ));
    }
    Ok(
        PreviewResponse {
            preview_root,
            executables,
            icon_candidates,
            desktop_suggestion,
            steps,
        },
    )
}

} // verus!
