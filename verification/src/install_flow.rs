//! The installation of a package as a step machine: it checks the
//! request, names the application, and asks in turn for the directory,
//! the copy, the permissions, the launcher and the command-line link,
//! recording each step. The caller performs every request it makes.
use vstd::prelude::*;
use crate::copy_flow::{copy_expects, copy_step, copy_wf, CopyFlow};
use crate::desktop::{create_desktop_entry, entry_plan_ok, DesktopConfig, DesktopEntryPlan};
use crate::errors::{InstallError, IoStep};
use crate::flow::{answers, Action, Next, Reply};
use crate::install::{
    copy_icon_to_install_root, executable_mode, icon_plan, install_appimage, installed_icon_outcome,
    link_to_local_bin,
    local_bin, resolve_installed_icon_path, selection_check, source_check, validate_preview_selection,
    validate_source, IconCopy, IconPlan, IconPlanView, LinkPlan,
};
use crate::model::PackageKind;
use crate::names::{app_name_of_path, app_name_of, expand_home, expanded, opt_str_view, sanitized_stem};
use crate::paths::{file_name, is_absolute, join, opt_view, path_is_absolute, path_join, path_strip_prefix, strip_prefix};
use crate::report::{report_steps, reports_view, steps_view, Report};
use crate::text::{to_chars, trim, trim_str};

verus! {

/// What the user asked to install. `source_path` is the real path of the
/// package file.
#[derive(Debug, Clone)]
pub struct InstallRequest {
    pub source_path: String,
    pub install_dir: String,
    pub package_kind: PackageKind,
    pub preview_root: Option<String>,
    pub selected_executable_path: Option<String>,
    pub desktop_config: DesktopConfig,
    pub create_desktop_entry: bool,
    pub add_to_path: bool,
}

/// What an installation reports.
#[derive(Debug, Clone)]
pub struct InstallResponse {
    pub app_name: String,
    pub install_root: String,
    pub executable_path: Option<String>,
    pub desktop_entry_path: Option<String>,
    pub path_link: Option<String>,
    pub steps: Vec<crate::model::InstallStep>,
}

/// The request an installation waits on.
#[derive(Debug)]
pub enum InstallPhase {
    /// The metadata of the package file.
    Source,
    /// The creation of the installation root.
    InstallRoot,
    /// The copy of an AppImage.
    AppImageCopy,
    /// The resolution of the extraction directory and the executable
    /// (both trimmed).
    Selection { preview_root: String, selected: String },
    /// The copy of the extraction directory, with the canonical directory
    /// and executable.
    Tree { source_root: String, selected: String, copy: CopyFlow },
    /// The permission bits of the executable.
    Mode,
    /// The new permission bits of the executable.
    SetMode,
    /// The resolution of the chosen icon.
    IconProbe,
    /// The icons directory, before the icon at `icon` is copied.
    IconDir { icon: String, copy: IconCopy },
    /// The copy of the icon.
    IconCopy { copy: IconCopy },
    /// Whether the icon the launcher will name exists.
    IconExists { path: String },
    /// The launcher directory.
    LauncherDir { plan: DesktopEntryPlan },
    /// The launcher file.
    LauncherWrite { plan: DesktopEntryPlan },
    /// The directory of commands.
    BinDir { plan: LinkPlan },
    /// Whether a file is in the link's place.
    LinkExists { plan: LinkPlan },
    /// The removal of what is in the link's place.
    LinkRemoval { plan: LinkPlan },
    /// The link.
    Link { plan: LinkPlan },
    /// Nothing: the installation finished or was refused.
    Over,
}

/// An installation under way.
#[derive(Debug)]
pub struct InstallFlow {
    pub request: InstallRequest,
    /// The value of `HOME`, if it is set.
    pub home: Option<String>,
    /// The installation directory, `~` expanded.
    pub install_dir: String,
    pub app_name: String,
    pub install_root: String,
    pub executable: String,
    pub desktop_entry_path: Option<String>,
    pub path_link: Option<String>,
    /// What was done so far.
    pub reports: Vec<Report>,
    pub phase: InstallPhase,
}

/// The reply an installation waits on in `phase` is of `reply`'s kind.
pub open spec fn install_expects(phase: InstallPhase, reply: Reply) -> bool {
    match phase {
        InstallPhase::Source => reply is Facts,
        InstallPhase::Selection { .. } => reply is Selection,
        InstallPhase::Tree { copy, .. } => copy_expects(copy.phase, reply),
        InstallPhase::Mode => reply is Mode,
        InstallPhase::IconProbe => reply is Icon,
        InstallPhase::IconExists { .. } => reply is Found,
        InstallPhase::LinkExists { .. } => reply is Found,
        InstallPhase::Over => false,
        _ => reply is Status,
    }
}

/// `t` is `s` with the reports `reports` and the phase `t.phase`.
pub open spec fn moved(s: InstallFlow, reports: Seq<Report>, t: InstallFlow) -> bool {
    t == InstallFlow { phase: t.phase, reports: t.reports, ..s } && t.reports@ == reports
}

/// The installation stopped with the reports `reports`.
pub open spec fn ended(s: InstallFlow, reports: Seq<Report>, t: InstallFlow) -> bool {
    moved(s, reports, t) && t.phase is Over
}

/// The installation was refused with `e`.
pub open spec fn refused(
    s: InstallFlow,
    reports: Seq<Report>,
    t: InstallFlow,
    n: Next<InstallResponse>,
    e: InstallError,
) -> bool {
    ended(s, reports, t) && n == Next::<InstallResponse>::Fail(e)
}

/// The installation finished: its response gives the application, its
/// root, its executable, the launcher and link made, and one step per
/// report.
pub open spec fn finished(
    s: InstallFlow,
    reports: Seq<Report>,
    t: InstallFlow,
    n: Next<InstallResponse>,
) -> bool {
    &&& ended(s, reports, t)
    &&& n matches Next::Done(resp)
    &&& resp.app_name == s.app_name
    &&& resp.install_root == s.install_root
    &&& resp.executable_path == Some(s.executable)
    &&& resp.desktop_entry_path == s.desktop_entry_path
    &&& resp.path_link == s.path_link
    &&& steps_view(resp.steps@) == reports_view(reports)
}

/// The command-line link, last: skipped unless asked for; otherwise its
/// directory under the home directory is created first.
pub open spec fn link_stage(
    s: InstallFlow,
    reports: Seq<Report>,
    t: InstallFlow,
    n: Next<InstallResponse>,
) -> bool {
    if !s.request.add_to_path {
        finished(s, reports.push(Report::LinkSkipped), t, n)
    } else {
        match s.home {
            None => refused(s, reports, t, n, InstallError::NoHome),
            Some(h) => {
                &&& moved(s, reports, t)
                &&& t.phase matches InstallPhase::BinDir { plan }
                &&& plan.directory@ == local_bin(h@)
                &&& plan.link_path@ == join(local_bin(h@), sanitized_stem(s.app_name@))
                &&& n == Next::<InstallResponse>::Act(Action::CreateDir { path: plan.directory })
            },
        }
    }
}

/// The launcher naming `icon`: its directory under the home directory is
/// created first.
pub open spec fn launcher_with(
    s: InstallFlow,
    reports: Seq<Report>,
    icon: Option<Seq<char>>,
    t: InstallFlow,
    n: Next<InstallResponse>,
) -> bool {
    match s.home {
        None => refused(s, reports, t, n, InstallError::NoHome),
        Some(h) => {
            &&& moved(s, reports, t)
            &&& t.phase matches InstallPhase::LauncherDir { plan }
            &&& entry_plan_ok(
                plan,
                s.request.desktop_config,
                s.app_name@,
                s.executable@,
                s.request.package_kind,
                icon,
                h@,
            )
            &&& n == Next::<InstallResponse>::Act(Action::CreateDir { path: plan.directory })
        },
    }
}

/// The trimmed form of an optional path.
pub open spec fn trimmed(o: Option<Seq<char>>) -> Option<Seq<char>> {
    match o {
        Some(p) => Some(trim(p)),
        None => None,
    }
}

/// The launcher, once the executable is ready: skipped unless asked for;
/// without a chosen icon it is written at once, otherwise the icon is
/// resolved first.
pub open spec fn launcher_stage(
    s: InstallFlow,
    reports: Seq<Report>,
    t: InstallFlow,
    n: Next<InstallResponse>,
) -> bool {
    if !s.request.create_desktop_entry {
        link_stage(s, reports.push(Report::LauncherSkipped), t, n)
    } else {
        match s.request.desktop_config.icon_path {
            None => launcher_with(s, reports, None, t, n),
            Some(raw) => if trim(raw@).len() == 0 {
                launcher_with(s, reports, None, t, n)
            } else {
                &&& moved(s, reports, t)
                &&& t.phase is IconProbe
                &&& n matches Next::Act(Action::ProbeIcon { icon, preview_root })
                &&& icon@ == trim(raw@)
                &&& opt_view(preview_root) == trimmed(opt_view(s.request.preview_root))
            },
        }
    }
}

/// The extraction directory is copied: the executable is found at its
/// place relative to the extraction directory under the installation
/// root.
pub open spec fn tree_done(
    s: InstallFlow,
    source_root: String,
    selected: String,
    t: InstallFlow,
    n: Next<InstallResponse>,
) -> bool {
    let reports = s.reports@.push(Report::ArchiveCopied { root: s.install_root });
    match strip_prefix(selected@, source_root@) {
        None => refused(s, reports, t, n, InstallError::ExecutableOutsidePreview),
        Some(rel) => {
            &&& t == InstallFlow {
                phase: InstallPhase::Mode,
                executable: t.executable,
                reports: t.reports,
                ..s
            }
            &&& t.reports@ == reports
            &&& t.executable@ == join(s.install_root@, rel)
            &&& n == Next::<InstallResponse>::Act(Action::ReadMode { path: t.executable })
        },
    }
}

/// Where a step of the copy leads: on to its next request, to the
/// executable once it is done, or to the installation's refusal.
pub open spec fn tree_outcome(
    s: InstallFlow,
    source_root: String,
    selected: String,
    u: CopyFlow,
    m: Next<()>,
    t: InstallFlow,
    n: Next<InstallResponse>,
) -> bool {
    match m {
        Next::Act(a) => {
            &&& moved(s, s.reports@, t)
            &&& t.phase == InstallPhase::Tree { source_root, selected, copy: u }
            &&& n == Next::<InstallResponse>::Act(a)
        },
        Next::Done(_) => tree_done(s, source_root, selected, t, n),
        Next::Fail(e) => refused(s, s.reports@, t, n, e),
    }
}

/// An installation copying a directory copies it in a well-formed way.
pub open spec fn install_ready(s: InstallFlow) -> bool {
    match s.phase {
        InstallPhase::Tree { copy, .. } => copy_wf(copy),
        _ => true,
    }
}

/// How an installation starts: `~` in the installation directory is
/// read as `home`; the package must be of a known kind and have an
/// absolute path; then its metadata is asked for.
pub open spec fn install_start(
    request: InstallRequest,
    home: Option<String>,
    t: InstallFlow,
    n: Next<InstallResponse>,
) -> bool {
    match expanded(trim(request.install_dir@), opt_view(home)) {
        None => t.phase is Over && n == Next::<InstallResponse>::Fail(InstallError::NoHome),
        Some(dir) => if request.package_kind == PackageKind::Unknown {
            t.phase is Over && n == Next::<InstallResponse>::Fail(InstallError::UnknownPackage)
        } else if !is_absolute(request.source_path@) {
            t.phase is Over && n == Next::<InstallResponse>::Fail(
                InstallError::SourcePathNotAbsolute,
            )
        } else {
            &&& t.request == request
            &&& t.home == home
            &&& t.install_dir@ == dir
            &&& t.desktop_entry_path is None
            &&& t.path_link is None
            &&& t.reports@ == Seq::<Report>::empty()
            &&& t.phase is Source
            &&& n == Next::<InstallResponse>::Act(Action::Inspect { path: request.source_path })
        },
    }
}

/// One step of an installation: what it does with the reply to its last
/// request.
pub open spec fn install_step(s: InstallFlow, reply: Reply, t: InstallFlow, n: Next<InstallResponse>) -> bool {
    let kind = s.request.package_kind;
    match (s.phase, reply) {
        (InstallPhase::Source, Reply::Facts(m)) => match source_check(
            s.request.source_path@,
            kind,
            m,
        ) {
            Err(e) => refused(s, s.reports@, t, n, e),
            Ok(_) => if s.install_dir@.len() == 0 {
                refused(s, s.reports@, t, n, InstallError::EmptyInstallDir)
            } else if !is_absolute(s.install_dir@) {
                refused(s, s.reports@, t, n, InstallError::RelativeInstallDir)
            } else {
                &&& t == InstallFlow {
                    phase: InstallPhase::InstallRoot,
                    app_name: t.app_name,
                    install_root: t.install_root,
                    ..s
                }
                &&& t.app_name@ == app_name_of(s.request.source_path@)
                &&& t.install_root@ == join(s.install_dir@, t.app_name@)
                &&& n == Next::<InstallResponse>::Act(Action::CreateDir { path: t.install_root })
            },
        },
        (InstallPhase::InstallRoot, Reply::Status(Err(d))) => refused(
            s,
            s.reports@,
            t,
            n,
            InstallError::Io(IoStep::CreateInstallDir, d),
        ),
        (InstallPhase::InstallRoot, Reply::Status(Ok(_))) => {
            let reports = s.reports@.push(Report::DirectoryPrepared { root: s.install_root });
            if kind == PackageKind::AppImage {
                match file_name(s.request.source_path@) {
                    None => refused(s, reports, t, n, InstallError::InvalidInstallFileName),
                    Some(f) => {
                        &&& t == InstallFlow {
                            phase: InstallPhase::AppImageCopy,
                            executable: t.executable,
                            reports: t.reports,
                            ..s
                        }
                        &&& t.reports@ == reports
                        &&& t.executable@ == join(s.install_root@, f)
                        &&& n == Next::<InstallResponse>::Act(
                            Action::CopyFile { from: s.request.source_path, to: t.executable },
                        )
                    },
                }
            } else if kind == PackageKind::Unknown {
                refused(s, reports, t, n, InstallError::UnsupportedKind)
            } else {
                match (s.request.preview_root, s.request.selected_executable_path) {
                    (None, _) => refused(s, reports, t, n, InstallError::MissingPreviewRoot),
                    (Some(_), None) => refused(
                        s,
                        reports,
                        t,
                        n,
                        InstallError::MissingSelectedExecutable,
                    ),
                    (Some(root), Some(sel)) => if !is_absolute(trim(root@)) || !is_absolute(
                        trim(sel@),
                    ) {
                        refused(s, reports, t, n, InstallError::SelectionNotAbsolute)
                    } else {
                        &&& moved(s, reports, t)
                        &&& t.phase matches InstallPhase::Selection { preview_root, selected }
                        &&& preview_root@ == trim(root@)
                        &&& selected@ == trim(sel@)
                        &&& n == Next::<InstallResponse>::Act(
                            Action::ProbeSelection { preview_root, selected },
                        )
                    },
                }
            }
        },
        (InstallPhase::AppImageCopy, Reply::Status(Err(d))) => refused(
            s,
            s.reports@,
            t,
            n,
            InstallError::Io(IoStep::CopyAppImage, d),
        ),
        (InstallPhase::AppImageCopy, Reply::Status(Ok(_))) => {
            &&& moved(s, s.reports@.push(Report::AppImageCopied { path: s.executable }), t)
            &&& t.phase is Mode
            &&& n == Next::<InstallResponse>::Act(Action::ReadMode { path: s.executable })
        },
        (InstallPhase::Selection { preview_root, selected }, Reply::Selection(probe)) => match selection_check(
            preview_root@,
            selected@,
            probe,
        ) {
            Err(e) => refused(s, s.reports@, t, n, e),
            Ok((croot, csel)) => {
                &&& moved(s, s.reports@, t)
                &&& t.phase matches InstallPhase::Tree { source_root, selected, copy }
                &&& source_root@ == croot
                &&& selected@ == csel
                &&& copy.source@ == croot
                &&& copy.destination_root@ == s.install_root@
                &&& copy.frames@.len() == 0
                &&& copy.phase is Root
                &&& n == Next::<InstallResponse>::Act(Action::Canonicalize { path: copy.source })
            },
        },
        (InstallPhase::Tree { source_root, selected, copy }, _) => exists|u: CopyFlow, m: Next<()>|
            #[trigger] copy_step(copy, reply, u, m) && copy_wf(u) && tree_outcome(
                InstallFlow { phase: InstallPhase::Over, ..s },
                source_root,
                selected,
                u,
                m,
                t,
                n,
            ),
        (InstallPhase::Mode, Reply::Mode(Err(d))) => refused(
            s,
            s.reports@,
            t,
            n,
            InstallError::Io(IoStep::ReadMode, d),
        ),
        (InstallPhase::Mode, Reply::Mode(Ok(mode))) => {
            &&& moved(s, s.reports@, t)
            &&& t.phase is SetMode
            &&& n == Next::<InstallResponse>::Act(
                Action::SetMode { path: s.executable, mode: mode | 0o755u32 },
            )
        },
        (InstallPhase::SetMode, Reply::Status(Err(d))) => refused(
            s,
            s.reports@,
            t,
            n,
            InstallError::Io(IoStep::SetMode, d),
        ),
        (InstallPhase::SetMode, Reply::Status(Ok(_))) => launcher_stage(
            s,
            s.reports@.push(
                if kind == PackageKind::AppImage {
                    Report::MadeExecutable
                } else {
                    Report::EntryChosen { path: s.executable }
                },
            ),
            t,
            n,
        ),
        (InstallPhase::IconProbe, Reply::Icon(probe)) => match icon_plan(
            opt_view(s.request.desktop_config.icon_path),
            opt_view(s.request.preview_root),
            s.install_root@,
            kind,
            probe,
        ) {
            Err(e) => refused(s, s.reports@, t, n, e),
            Ok(IconPlanView::NoIcon) => launcher_with(s, s.reports@, None, t, n),
            Ok(IconPlanView::Use(p)) => {
                &&& moved(s, s.reports@, t)
                &&& t.phase matches InstallPhase::IconExists { path }
                &&& path@ == p
                &&& n == Next::<InstallResponse>::Act(Action::Exists { path })
            },
            Ok(IconPlanView::CopyIntoInstallRoot(ci)) => match file_name(ci) {
                None => refused(s, s.reports@, t, n, InstallError::InvalidIconFileName),
                Some(f) => {
                    &&& moved(s, s.reports@, t)
                    &&& t.phase matches InstallPhase::IconDir { icon, copy }
                    &&& icon@ == ci
                    &&& copy.directory@ == join(s.install_root@, "icons"@)
                    &&& copy.destination@ == join(join(s.install_root@, "icons"@), f)
                    &&& n == Next::<InstallResponse>::Act(Action::CreateDir { path: copy.directory })
                },
            },
        },
        (InstallPhase::IconDir { .. }, Reply::Status(Err(d))) => refused(
            s,
            s.reports@,
            t,
            n,
            InstallError::Io(IoStep::CreateIconDir, d),
        ),
        (InstallPhase::IconDir { icon, copy }, Reply::Status(Ok(_))) => {
            &&& moved(s, s.reports@, t)
            &&& t.phase == InstallPhase::IconCopy { copy }
            &&& n == Next::<InstallResponse>::Act(Action::CopyFile { from: icon, to: copy.destination })
        },
        (InstallPhase::IconCopy { .. }, Reply::Status(Err(d))) => refused(
            s,
            s.reports@,
            t,
            n,
            InstallError::Io(IoStep::CopyIcon, d),
        ),
        (InstallPhase::IconCopy { copy }, Reply::Status(Ok(_))) => {
            &&& moved(s, s.reports@, t)
            &&& t.phase == InstallPhase::IconExists { path: copy.destination }
            &&& n == Next::<InstallResponse>::Act(Action::Exists { path: copy.destination })
        },
        (InstallPhase::IconExists { path }, Reply::Found(exists)) => if exists {
            launcher_with(s, s.reports@, Some(path@), t, n)
        } else {
            refused(s, s.reports@, t, n, InstallError::IconMissing)
        },
        (InstallPhase::LauncherDir { .. }, Reply::Status(Err(d))) => refused(
            s,
            s.reports@,
            t,
            n,
            InstallError::Io(IoStep::CreateLauncherDir, d),
        ),
        (InstallPhase::LauncherDir { plan }, Reply::Status(Ok(_))) => {
            &&& moved(s, s.reports@, t)
            &&& t.phase == InstallPhase::LauncherWrite { plan }
            &&& n == Next::<InstallResponse>::Act(
                Action::WriteFile { path: plan.path, content: plan.content },
            )
        },
        (InstallPhase::LauncherWrite { .. }, Reply::Status(Err(d))) => refused(
            s,
            s.reports@,
            t,
            n,
            InstallError::Io(IoStep::WriteLauncher, d),
        ),
        (InstallPhase::LauncherWrite { plan }, Reply::Status(Ok(_))) => link_stage(
            InstallFlow { desktop_entry_path: Some(plan.path), ..s },
            s.reports@.push(Report::LauncherCreated { path: plan.path }),
            t,
            n,
        ),
        (InstallPhase::BinDir { .. }, Reply::Status(Err(d))) => refused(
            s,
            s.reports@,
            t,
            n,
            InstallError::Io(IoStep::CreateBinDir, d),
        ),
        (InstallPhase::BinDir { plan }, Reply::Status(Ok(_))) => {
            &&& moved(s, s.reports@, t)
            &&& t.phase == InstallPhase::LinkExists { plan }
            &&& n == Next::<InstallResponse>::Act(Action::Exists { path: plan.link_path })
        },
        (InstallPhase::LinkExists { plan }, Reply::Found(exists)) => {
            &&& moved(s, s.reports@, t)
            &&& if exists {
                &&& t.phase == InstallPhase::LinkRemoval { plan }
                &&& n == Next::<InstallResponse>::Act(Action::RemoveFile { path: plan.link_path })
            } else {
                &&& t.phase == InstallPhase::Link { plan }
                &&& n == Next::<InstallResponse>::Act(
                    Action::Symlink { target: s.executable, link: plan.link_path },
                )
            }
        },
        (InstallPhase::LinkRemoval { .. }, Reply::Status(Err(d))) => refused(
            s,
            s.reports@,
            t,
            n,
            InstallError::Io(IoStep::ReplaceLink, d),
        ),
        (InstallPhase::LinkRemoval { plan }, Reply::Status(Ok(_))) => {
            &&& moved(s, s.reports@, t)
            &&& t.phase == InstallPhase::Link { plan }
            &&& n == Next::<InstallResponse>::Act(
                Action::Symlink { target: s.executable, link: plan.link_path },
            )
        },
        (InstallPhase::Link { .. }, Reply::Status(Err(d))) => refused(
            s,
            s.reports@,
            t,
            n,
            InstallError::Io(IoStep::CreateLink, d),
        ),
        (InstallPhase::Link { plan }, Reply::Status(Ok(_))) => finished(
            InstallFlow { path_link: Some(plan.link_path), ..s },
            s.reports@.push(Report::LinkCreated { path: plan.link_path }),
            t,
            n,
        ),
        _ => false,
    }
}

fn clone_opt(o: &Option<String>) -> (r: Option<String>)
    ensures
        r == *o,
{
    match o {
        Some(s) => Some(s.clone()),
        None => None,
    }
}

fn as_opt_str(o: &Option<String>) -> (r: Option<&str>)
    ensures
        opt_str_view(r) == opt_view(*o),
{
    match o {
        Some(s) => Some(s.as_str()),
        None => None,
    }
}

fn trim_opt(o: &Option<String>) -> (r: Option<String>)
    ensures
        opt_view(r) == trimmed(opt_view(*o)),
{
    match o {
        Some(s) => Some(trim_str(s.as_str())),
        None => None,
    }
}

impl InstallFlow {
    /// Whether the installation waits on a reply of `reply`'s kind.
    pub fn accepts(&self, reply: &Reply) -> (r: bool)
        ensures
            r == install_expects(self.phase, *reply),
    {
        match (&self.phase, reply) {
            (InstallPhase::Source, Reply::Facts(_)) => true,
            (InstallPhase::Selection { .. }, Reply::Selection(_)) => true,
            (InstallPhase::Tree { copy, .. }, _) => copy.accepts(reply),
            (InstallPhase::Mode, Reply::Mode(_)) => true,
            (InstallPhase::IconProbe, Reply::Icon(_)) => true,
            (InstallPhase::IconExists { .. }, Reply::Found(_)) => true,
            (InstallPhase::LinkExists { .. }, Reply::Found(_)) => true,
            (InstallPhase::Source, _) => false,
            (InstallPhase::Selection { .. }, _) => false,
            (InstallPhase::Mode, _) => false,
            (InstallPhase::IconProbe, _) => false,
            (InstallPhase::IconExists { .. }, _) => false,
            (InstallPhase::LinkExists { .. }, _) => false,
            (InstallPhase::Over, _) => false,
            (_, Reply::Status(_)) => true,
            (_, _) => false,
        }
    }

    /// Starts an installation (see `install_start`); `home` is the value
    /// of `HOME`, if it is set.
    pub fn start(request: InstallRequest, home: Option<String>) -> (r: (InstallFlow, Next<InstallResponse>))
        ensures
            install_start(request, home, r.0, r.1),
            install_ready(r.0),
            r.1 matches Next::Act(a) ==> forall|reply: Reply|
                answers(a, reply) == install_expects(r.0.phase, reply),
    {
        let trimmed_dir = trim_str(request.install_dir.as_str());
        let home_str = as_opt_str(&home);
        let expanded_dir = expand_home(trimmed_dir.as_str(), home_str);
        let source = to_chars(request.source_path.as_str());
        let (dir, failure) = match expanded_dir {
            Err(e) => (String::new(), Some(e)),
            Ok(d) => if request.package_kind == PackageKind::Unknown {
                (d, Some(InstallError::UnknownPackage))
            } else if !(source.len() > 0 && source[0] == '/') {
                (d, Some(InstallError::SourcePathNotAbsolute))
            } else {
                (d, None)
            },
        };
        let path = request.source_path.clone();
        let mut flow = InstallFlow {
            request,
            home,
            install_dir: dir,
            app_name: String::new(),
            install_root: String::new(),
            executable: String::new(),
            desktop_entry_path: None,
            path_link: None,
            reports: Vec::new(),
            phase: InstallPhase::Source,
        };
        match failure {
            Some(e) => {
                flow.phase = InstallPhase::Over;
                (flow, Next::Fail(e))
            },
            None => (flow, Next::Act(Action::Inspect { path })),
        }
    }

    fn refuse(&mut self, e: InstallError) -> (n: Next<InstallResponse>)
        ensures
            refused(*old(self), old(self).reports@, *final(self), n, e),
    {
        self.phase = InstallPhase::Over;
        Next::Fail(e)
    }

    fn finish(&mut self) -> (n: Next<InstallResponse>)
        ensures
            finished(*old(self), old(self).reports@, *final(self), n),
    {
        self.phase = InstallPhase::Over;
        let steps = report_steps(&self.reports);
        Next::Done(
            InstallResponse {
                app_name: self.app_name.clone(),
                install_root: self.install_root.clone(),
                executable_path: Some(self.executable.clone()),
                desktop_entry_path: clone_opt(&self.desktop_entry_path),
                path_link: clone_opt(&self.path_link),
                steps,
            },
        )
    }

    fn link_stage_exec(&mut self) -> (n: Next<InstallResponse>)
        ensures
            link_stage(*old(self), old(self).reports@, *final(self), n),
    {
        if !self.request.add_to_path {
            self.reports.push(Report::LinkSkipped);
            return self.finish();
        }
        match link_to_local_bin(self.app_name.as_str(), as_opt_str(&self.home)) {
            Err(e) => self.refuse(e),
            Ok(plan) => {
                let dir = plan.directory.clone();
                self.phase = InstallPhase::BinDir { plan };
                Next::Act(Action::CreateDir { path: dir })
            },
        }
    }

    fn launcher_with_exec(&mut self, icon: Option<String>) -> (n: Next<InstallResponse>)
        ensures
            launcher_with(*old(self), old(self).reports@, opt_view(icon), *final(self), n),
    {
        let made = create_desktop_entry(
            &self.request.desktop_config,
            self.app_name.as_str(),
            self.executable.as_str(),
            self.request.package_kind,
            as_opt_str(&icon),
            as_opt_str(&self.home),
        );
        match made {
            Err(e) => self.refuse(e),
            Ok(plan) => {
                let dir = plan.directory.clone();
                self.phase = InstallPhase::LauncherDir { plan };
                Next::Act(Action::CreateDir { path: dir })
            },
        }
    }

    fn launcher_stage_exec(&mut self) -> (n: Next<InstallResponse>)
        ensures
            launcher_stage(*old(self), old(self).reports@, *final(self), n),
    {
        if !self.request.create_desktop_entry {
            self.reports.push(Report::LauncherSkipped);
            return self.link_stage_exec();
        }
        let icon = match &self.request.desktop_config.icon_path {
            None => None,
            Some(raw) => {
                let t = trim_str(raw.as_str());
                if t.as_str().unicode_len() == 0 {
                    None
                } else {
                    Some(t)
                }
            },
        };
        match icon {
            None => self.launcher_with_exec(None),
            Some(t) => {
                self.phase = InstallPhase::IconProbe;
                Next::Act(Action::ProbeIcon { icon: t, preview_root: trim_opt(&self.request.preview_root) })
            },
        }
    }

    fn on_source(&mut self, m: Result<crate::model::FileFacts, String>) -> (n: Next<InstallResponse>)
        ensures
            install_step(
                InstallFlow { phase: InstallPhase::Source, ..*old(self) },
                Reply::Facts(m),
                *final(self),
                n,
            ),
    {
        match validate_source(self.request.source_path.as_str(), self.request.package_kind, &m) {
            Err(e) => return self.refuse(e),
            Ok(_) => {},
        }
        let d = to_chars(self.install_dir.as_str());
        if d.len() == 0 {
            return self.refuse(InstallError::EmptyInstallDir);
        }
        if d[0] != '/' {
            return self.refuse(InstallError::RelativeInstallDir);
        }
        let app_name = app_name_of_path(self.request.source_path.as_str());
        let root = path_join(self.install_dir.as_str(), app_name.as_str());
        self.app_name = app_name;
        self.install_root = root;
        self.phase = InstallPhase::InstallRoot;
        Next::Act(Action::CreateDir { path: self.install_root.clone() })
    }

    fn on_install_root(&mut self, r: Result<(), String>) -> (n: Next<InstallResponse>)
        ensures
            install_step(
                InstallFlow { phase: InstallPhase::InstallRoot, ..*old(self) },
                Reply::Status(r),
                *final(self),
                n,
            ),
    {
        match r {
            Err(d) => return self.refuse(InstallError::Io(IoStep::CreateInstallDir, d)),
            Ok(_) => {},
        }
        self.reports.push(Report::DirectoryPrepared { root: self.install_root.clone() });
        match self.request.package_kind {
            PackageKind::AppImage => {
                match install_appimage(self.request.source_path.as_str(), self.install_root.as_str()) {
                    Err(e) => self.refuse(e),
                    Ok(exe) => {
                        self.executable = exe;
                        self.phase = InstallPhase::AppImageCopy;
                        Next::Act(
                            Action::CopyFile {
                                from: self.request.source_path.clone(),
                                to: self.executable.clone(),
                            },
                        )
                    },
                }
            },
            PackageKind::Unknown => self.refuse(InstallError::UnsupportedKind),
            _ => {
                let root = match &self.request.preview_root {
                    None => return self.refuse(InstallError::MissingPreviewRoot),
                    Some(root) => trim_str(root.as_str()),
                };
                let sel = match &self.request.selected_executable_path {
                    None => return self.refuse(InstallError::MissingSelectedExecutable),
                    Some(sel) => trim_str(sel.as_str()),
                };
                if !path_is_absolute(root.as_str()) || !path_is_absolute(sel.as_str()) {
                    return self.refuse(InstallError::SelectionNotAbsolute);
                }
                self.phase = InstallPhase::Selection {
                    preview_root: root.clone(),
                    selected: sel.clone(),
                };
                Next::Act(Action::ProbeSelection { preview_root: root, selected: sel })
            },
        }
    }

    fn on_selection(&mut self, preview_root: String, selected: String, probe: crate::install::SelectionProbe) -> (n:
        Next<InstallResponse>)
        ensures
            install_step(
                InstallFlow { phase: InstallPhase::Selection { preview_root, selected }, ..*old(self) },
                Reply::Selection(probe),
                *final(self),
                n,
            ),
            install_ready(*final(self)),
    {
        match validate_preview_selection(preview_root.as_str(), selected.as_str(), &probe) {
            Err(e) => self.refuse(e),
            Ok((croot, csel)) => {
                let (copy, m) = CopyFlow::start(croot.as_str(), self.install_root.as_str());
                let a = match m {
                    Next::Act(a) => a,
                    _ => vstd::pervasive::unreached(),
                };
                self.phase = InstallPhase::Tree { source_root: croot, selected: csel, copy };
                Next::Act(a)
            },
        }
    }

    fn tree_done_exec(&mut self, source_root: String, selected: String) -> (n: Next<InstallResponse>)
        ensures
            tree_done(*old(self), source_root, selected, *final(self), n),
            install_ready(*final(self)),
    {
        self.reports.push(Report::ArchiveCopied { root: self.install_root.clone() });
        match path_strip_prefix(selected.as_str(), source_root.as_str()) {
            None => self.refuse(InstallError::ExecutableOutsidePreview),
            Some(rel) => {
                self.executable = path_join(self.install_root.as_str(), rel.as_str());
                self.phase = InstallPhase::Mode;
                Next::Act(Action::ReadMode { path: self.executable.clone() })
            },
        }
    }

    fn on_tree(&mut self, source_root: String, selected: String, copy: CopyFlow, reply: Reply) -> (n: Next<
        InstallResponse,
    >)
        requires
            copy_expects(copy.phase, reply),
            copy_wf(copy),
        ensures
            install_step(
                InstallFlow { phase: InstallPhase::Tree { source_root, selected, copy }, ..*old(self) },
                reply,
                *final(self),
                n,
            ),
            install_ready(*final(self)),
    {
        self.phase = InstallPhase::Over;
        let mut copy = copy;
        let ghost before = copy;
        let m = copy.resume(reply);
        let ghost u = copy;
        let ghost mm = m;
        let ghost mid = *self;
        let n = match m {
            Next::Act(a) => {
                self.phase = InstallPhase::Tree { source_root, selected, copy };
                Next::Act(a)
            },
            Next::Done(_) => self.tree_done_exec(source_root, selected),
            Next::Fail(e) => self.refuse(e),
        };
        assert(copy_step(before, reply, u, mm));
        n
    }

    fn on_icon(&mut self, probe: crate::install::IconProbe) -> (n: Next<InstallResponse>)
        ensures
            install_step(
                InstallFlow { phase: InstallPhase::IconProbe, ..*old(self) },
                Reply::Icon(probe),
                *final(self),
                n,
            ),
    {
        let planned = resolve_installed_icon_path(
            as_opt_str(&self.request.desktop_config.icon_path),
            as_opt_str(&self.request.preview_root),
            self.install_root.as_str(),
            self.request.package_kind,
            &probe,
        );
        match planned {
            Err(e) => self.refuse(e),
            Ok(IconPlan::NoIcon) => self.launcher_with_exec(None),
            Ok(IconPlan::Use(p)) => {
                let path = p.clone();
                self.phase = InstallPhase::IconExists { path: p };
                Next::Act(Action::Exists { path })
            },
            Ok(IconPlan::CopyIntoInstallRoot(ci)) => {
                match copy_icon_to_install_root(ci.as_str(), self.install_root.as_str()) {
                    Err(e) => self.refuse(e),
                    Ok(copy) => {
                        let dir = copy.directory.clone();
                        self.phase = InstallPhase::IconDir { icon: ci, copy };
                        Next::Act(Action::CreateDir { path: dir })
                    },
                }
            },
        }
    }

    /// One step of the installation (see `install_step`): `reply` answers
    /// the last request. Each request it makes is answered by a reply of
    /// the kind it next accepts.
    pub fn resume(&mut self, reply: Reply) -> (n: Next<InstallResponse>)
        requires
            install_expects(old(self).phase, reply),
            install_ready(*old(self)),
        ensures
            install_step(*old(self), reply, *final(self), n),
            install_ready(*final(self)),
            n matches Next::Act(a) ==> forall|r: Reply|
                answers(a, r) == install_expects(final(self).phase, r),
    {
        let mut phase = InstallPhase::Over;
        core::mem::swap(&mut phase, &mut self.phase);
        match (phase, reply) {
            (InstallPhase::Source, Reply::Facts(m)) => self.on_source(m),
            (InstallPhase::InstallRoot, Reply::Status(r)) => self.on_install_root(r),
            (InstallPhase::AppImageCopy, Reply::Status(r)) => match r {
                Err(d) => self.refuse(InstallError::Io(IoStep::CopyAppImage, d)),
                Ok(_) => {
                    self.reports.push(Report::AppImageCopied { path: self.executable.clone() });
                    self.phase = InstallPhase::Mode;
                    Next::Act(Action::ReadMode { path: self.executable.clone() })
                },
            },
            (InstallPhase::Selection { preview_root, selected }, Reply::Selection(probe)) => self.on_selection(
                preview_root,
                selected,
                probe,
            ),
            (InstallPhase::Tree { source_root, selected, copy }, reply) => self.on_tree(
                source_root,
                selected,
                copy,
                reply,
            ),
            (InstallPhase::Mode, Reply::Mode(r)) => match r {
                Err(d) => self.refuse(InstallError::Io(IoStep::ReadMode, d)),
                Ok(mode) => {
                    self.phase = InstallPhase::SetMode;
                    Next::Act(
                        Action::SetMode { path: self.executable.clone(), mode: executable_mode(mode) },
                    )
                },
            },
            (InstallPhase::SetMode, Reply::Status(r)) => match r {
                Err(d) => self.refuse(InstallError::Io(IoStep::SetMode, d)),
                Ok(_) => {
                    if self.request.package_kind == PackageKind::AppImage {
                        self.reports.push(Report::MadeExecutable);
                    } else {
                        self.reports.push(Report::EntryChosen { path: self.executable.clone() });
                    }
                    self.launcher_stage_exec()
                },
            },
            (InstallPhase::IconProbe, Reply::Icon(probe)) => self.on_icon(probe),
            (InstallPhase::IconDir { icon, copy }, Reply::Status(r)) => match r {
                Err(d) => self.refuse(InstallError::Io(IoStep::CreateIconDir, d)),
                Ok(_) => {
                    let to = copy.destination.clone();
                    self.phase = InstallPhase::IconCopy { copy };
                    Next::Act(Action::CopyFile { from: icon, to })
                },
            },
            (InstallPhase::IconCopy { copy }, Reply::Status(r)) => match r {
                Err(d) => self.refuse(InstallError::Io(IoStep::CopyIcon, d)),
                Ok(_) => {
                    let path = copy.destination.clone();
                    self.phase = InstallPhase::IconExists { path: copy.destination };
                    Next::Act(Action::Exists { path })
                },
            },
            (InstallPhase::IconExists { path }, Reply::Found(exists)) => match installed_icon_outcome(
                path,
                exists,
            ) {
                Err(e) => self.refuse(e),
                Ok(icon) => self.launcher_with_exec(icon),
            },
            (InstallPhase::LauncherDir { plan }, Reply::Status(r)) => match r {
                Err(d) => self.refuse(InstallError::Io(IoStep::CreateLauncherDir, d)),
                Ok(_) => {
                    let path = plan.path.clone();
                    let content = plan.content.clone();
                    self.phase = InstallPhase::LauncherWrite { plan };
                    Next::Act(Action::WriteFile { path, content })
                },
            },
            (InstallPhase::LauncherWrite { plan }, Reply::Status(r)) => match r {
                Err(d) => self.refuse(InstallError::Io(IoStep::WriteLauncher, d)),
                Ok(_) => {
                    self.desktop_entry_path = Some(plan.path.clone());
                    self.reports.push(Report::LauncherCreated { path: plan.path });
                    self.link_stage_exec()
                },
            },
            (InstallPhase::BinDir { plan }, Reply::Status(r)) => match r {
                Err(d) => self.refuse(InstallError::Io(IoStep::CreateBinDir, d)),
                Ok(_) => {
                    let path = plan.link_path.clone();
                    self.phase = InstallPhase::LinkExists { plan };
                    Next::Act(Action::Exists { path })
                },
            },
            (InstallPhase::LinkExists { plan }, Reply::Found(exists)) => {
                let link = plan.link_path.clone();
                if exists {
                    self.phase = InstallPhase::LinkRemoval { plan };
                    Next::Act(Action::RemoveFile { path: link })
                } else {
                    self.phase = InstallPhase::Link { plan };
                    Next::Act(Action::Symlink { target: self.executable.clone(), link })
                }
            },
            (InstallPhase::LinkRemoval { plan }, Reply::Status(r)) => match r {
                Err(d) => self.refuse(InstallError::Io(IoStep::ReplaceLink, d)),
                Ok(_) => {
                    let link = plan.link_path.clone();
                    self.phase = InstallPhase::Link { plan };
                    Next::Act(Action::Symlink { target: self.executable.clone(), link })
                },
            },
            (InstallPhase::Link { plan }, Reply::Status(r)) => match r {
                Err(d) => self.refuse(InstallError::Io(IoStep::CreateLink, d)),
                Ok(_) => {
                    self.path_link = Some(plan.link_path.clone());
                    self.reports.push(Report::LinkCreated { path: plan.link_path });
                    self.finish()
                },
            },
            (_, _) => vstd::pervasive::unreached(),
        }
    }
}

} // verus!
