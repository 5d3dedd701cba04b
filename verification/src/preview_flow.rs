//! The preview of a package as a step machine: it checks the package,
//! unpacks it into a scratch directory, and gathers what the package
//! offers (its executables, its icons, and the launcher settings its own
//! launcher suggests). The caller performs every request it makes.
use vstd::prelude::*;
use crate::candidates::{
    executable_candidates, executable_files, executable_order, executable_paths, file_paths,
    find_desktop_files, find_icon_candidates, icon_candidates, icon_choice, is_executable_candidate,
    is_icon_candidate, launcher_extensions, order_executables, path_order, paths_of_files,
    read_desktop_suggestion, strings, suggestion_ok, with_extension, ExecutableCandidate, IconCandidate,
};
use crate::desktop::{metadata_of, empty_metadata, parse_desktop_metadata, DesktopMetadata};
use crate::errors::{InstallError, IoStep};
use crate::flow::{answers, Action, Next, Reply};
use crate::install::{
    appimage_extraction_outcome, arg_views, executable_mode, extract_appimage, extract_archive,
    extraction_outcome,
    extract_command_ok, source_check, tar_flag, validate_source, AppImageExtraction, ExtractCommand,
};
use crate::model::PackageKind;
use crate::names::{app_name_of_path, app_name_of, preview_dir_name, preview_dir_path};
use crate::paths::{file_name, is_absolute, join, parent, parent_chars, path_join};
use crate::report::{finish_preview, preview_steps, report_steps, reports_view, steps_view, PreviewResponse, Report};
use crate::sorting::sorted_by;
use crate::text::{from_chars, owned, to_chars, trim, trim_chars};

verus! {

/// What the user asked to preview. `source_path` is the real path of the
/// package file.
#[derive(Debug, Clone)]
pub struct PreviewRequest {
    pub source_path: String,
    pub package_kind: PackageKind,
}

/// The request a preview waits on.
#[derive(Debug, Clone)]
pub enum PreviewPhase {
    /// The metadata of the package file.
    Source,
    /// The clock, which names the scratch directory.
    Clock,
    /// The creation of the scratch directory.
    PreviewDir,
    /// The copy of the AppImage that unpacks itself.
    ExtractorCopy { extraction: AppImageExtraction },
    /// The permission bits of that copy.
    ExtractorMode { extraction: AppImageExtraction },
    /// The new permission bits of that copy.
    ExtractorSetMode { extraction: AppImageExtraction },
    /// The AppImage unpacking itself.
    AppImageRun { extraction: AppImageExtraction },
    /// Whether it left its directory behind.
    Squashfs { extraction: AppImageExtraction },
    /// The extraction command of an archive.
    ArchiveRun,
    /// The files of the unpacked package.
    Walk,
    /// The text of the package's first launcher.
    LauncherText,
    /// Whether the launcher's absolute `Icon` value exists.
    IconValue { value: String },
    /// Whether the launcher's `Icon` value exists under the unpacked
    /// package; `value_exists` is what was found of the value itself.
    IconRooted { value_exists: bool },
    /// Nothing: the preview finished or was refused.
    Over,
}

/// A preview under way.
#[derive(Debug)]
pub struct PreviewFlow {
    pub request: PreviewRequest,
    /// The system's directory for temporary files.
    pub temp_dir: String,
    /// The installer's process id.
    pub pid: u32,
    pub app_name: String,
    /// Where the package is unpacked.
    pub preview_root: String,
    pub executables: Vec<ExecutableCandidate>,
    pub icons: Vec<IconCandidate>,
    /// What the package's launcher says.
    pub metadata: DesktopMetadata,
    /// What was done so far.
    pub reports: Vec<Report>,
    pub phase: PreviewPhase,
}

/// The reply a preview waits on in `phase` is of `reply`'s kind.
pub open spec fn preview_expects(phase: PreviewPhase, reply: Reply) -> bool {
    match phase {
        PreviewPhase::Source => reply is Facts,
        PreviewPhase::Clock => reply is Clock,
        PreviewPhase::PreviewDir => reply is Status,
        PreviewPhase::ExtractorCopy { .. } => reply is Status,
        PreviewPhase::ExtractorMode { .. } => reply is Mode,
        PreviewPhase::ExtractorSetMode { .. } => reply is Status,
        PreviewPhase::AppImageRun { .. } => reply is Ran,
        PreviewPhase::Squashfs { .. } => reply is Found,
        PreviewPhase::ArchiveRun => reply is Ran,
        PreviewPhase::Walk => reply is Files,
        PreviewPhase::LauncherText => reply is Text,
        PreviewPhase::IconValue { .. } => reply is Found,
        PreviewPhase::IconRooted { .. } => reply is Found,
        PreviewPhase::Over => false,
    }
}

/// A preview that reads the package's launcher has found an executable.
pub open spec fn preview_wf(s: PreviewFlow) -> bool {
    match s.phase {
        PreviewPhase::LauncherText => s.executables@.len() > 0,
        PreviewPhase::IconValue { .. } => s.executables@.len() > 0,
        PreviewPhase::IconRooted { .. } => s.executables@.len() > 0,
        _ => true,
    }
}

/// `t` is `s` with the reports `reports` and the phase `t.phase`.
pub open spec fn moved(s: PreviewFlow, reports: Seq<Report>, t: PreviewFlow) -> bool {
    t == PreviewFlow { phase: t.phase, reports: t.reports, ..s } && t.reports@ == reports
}

/// The preview was refused with `e`.
pub open spec fn refused(s: PreviewFlow, t: PreviewFlow, n: Next<PreviewResponse>, e: InstallError) -> bool {
    &&& moved(s, s.reports@, t)
    &&& t.phase is Over
    &&& n == Next::<PreviewResponse>::Fail(e)
}

/// The preview finished: its response gives the scratch directory, the
/// executables and icons found, the suggested launcher settings (the
/// launcher's `Icon` value found to exist as `value_exists` and under the
/// scratch directory as `rooted_exists`), and the steps.
pub open spec fn finished(
    s: PreviewFlow,
    value_exists: bool,
    rooted_exists: bool,
    t: PreviewFlow,
    n: Next<PreviewResponse>,
) -> bool {
    &&& moved(s, s.reports@, t)
    &&& t.phase is Over
    &&& n matches Next::Done(resp)
    &&& resp.preview_root == s.preview_root
    &&& resp.executables@ == s.executables@
    &&& resp.icon_candidates@ == s.icons@
    &&& suggestion_ok(
        resp.desktop_suggestion,
        s.preview_root@,
        s.app_name@,
        s.icons@,
        s.metadata@,
        value_exists,
        rooted_exists,
    )
    &&& steps_view(resp.steps@) == preview_steps(
        reports_view(s.reports@),
        s.executables@.len(),
        s.icons@.len(),
    )
}

/// The launcher's `Icon` value, once the launcher is read: a non-blank
/// absolute value is checked for existence first, any other non-blank
/// value under the scratch directory; otherwise the preview finishes.
pub open spec fn icon_value_stage(s: PreviewFlow, t: PreviewFlow, n: Next<PreviewResponse>) -> bool {
    match s.metadata.icon {
        Some(v) => if trim(v@).len() == 0 {
            finished(s, false, false, t, n)
        } else if is_absolute(v@) {
            &&& moved(s, s.reports@, t)
            &&& t.phase matches PreviewPhase::IconValue { value }
            &&& value@ == v@
            &&& n == Next::<PreviewResponse>::Act(Action::Exists { path: value })
        } else {
            &&& moved(s, s.reports@, t)
            &&& t.phase == PreviewPhase::IconRooted { value_exists: false }
            &&& n matches Next::Act(Action::Exists { path })
            &&& path@ == join(s.preview_root@, v@)
        },
        None => finished(s, false, false, t, n),
    }
}

/// The launcher metadata read from nothing.
pub open spec fn no_metadata() -> DesktopMetadata {
    DesktopMetadata { name: None, icon: None, terminal: None, categories: None }
}

/// The executables offered: the AppImage itself, or the executable files
/// of the unpacked package in the order they are offered.
pub open spec fn offered_executables(s: PreviewFlow, files: Seq<(String, u32)>) -> Seq<Seq<char>> {
    if s.request.package_kind == PackageKind::AppImage {
        seq![s.request.source_path@]
    } else {
        sorted_by(executable_paths(files), executable_order())
    }
}

/// The directory the executables are shown relative to: the AppImage's
/// own directory, or the scratch directory.
pub open spec fn executables_root(s: PreviewFlow) -> Seq<char> {
    if s.request.package_kind == PackageKind::AppImage {
        match parent(s.request.source_path@) {
            Some(p) => p,
            None => Seq::empty(),
        }
    } else {
        s.preview_root@
    }
}

/// How a preview starts: the package must be of a known kind and have an
/// absolute path; then its metadata is asked for.
pub open spec fn preview_start(
    request: PreviewRequest,
    temp_dir: String,
    pid: u32,
    t: PreviewFlow,
    n: Next<PreviewResponse>,
) -> bool {
    if request.package_kind == PackageKind::Unknown {
        t.phase is Over && n == Next::<PreviewResponse>::Fail(InstallError::UnknownPackage)
    } else if !is_absolute(request.source_path@) {
        t.phase is Over && n == Next::<PreviewResponse>::Fail(InstallError::SourcePathNotAbsolute)
    } else {
        &&& t.request == request
        &&& t.temp_dir == temp_dir
        &&& t.pid == pid
        &&& t.reports@ == Seq::<Report>::empty()
        &&& t.phase is Source
        &&& n == Next::<PreviewResponse>::Act(Action::Inspect { path: request.source_path })
    }
}

/// One step of a preview: what it does with the reply to its last request.
pub open spec fn preview_step(s: PreviewFlow, reply: Reply, t: PreviewFlow, n: Next<PreviewResponse>) -> bool {
    let kind = s.request.package_kind;
    let source = s.request.source_path;
    match (s.phase, reply) {
        (PreviewPhase::Source, Reply::Facts(m)) => match source_check(source@, kind, m) {
            Err(e) => refused(s, t, n, e),
            Ok(_) => {
                &&& t == PreviewFlow { app_name: t.app_name, phase: PreviewPhase::Clock, ..s }
                &&& t.app_name@ == app_name_of(source@)
                &&& n == Next::<PreviewResponse>::Act(Action::Clock)
            },
        },
        (PreviewPhase::Clock, Reply::Clock(Err(d))) => refused(
            s,
            t,
            n,
            InstallError::Io(IoStep::PreviewClock, d),
        ),
        (PreviewPhase::Clock, Reply::Clock(Ok(millis))) => {
            &&& t == PreviewFlow {
                preview_root: t.preview_root,
                phase: PreviewPhase::PreviewDir,
                ..s
            }
            &&& t.preview_root@ == join(
                s.temp_dir@,
                preview_dir_name(s.app_name@, s.pid as nat, millis as nat),
            )
            &&& n == Next::<PreviewResponse>::Act(Action::CreateDir { path: t.preview_root })
        },
        (PreviewPhase::PreviewDir, Reply::Status(Err(d))) => refused(
            s,
            t,
            n,
            InstallError::Io(IoStep::CreatePreviewDir, d),
        ),
        (PreviewPhase::PreviewDir, Reply::Status(Ok(_))) => if kind == PackageKind::AppImage {
            match file_name(source@) {
                None => refused(s, t, n, InstallError::InvalidAppImageName),
                Some(f) => {
                    &&& moved(s, s.reports@, t)
                    &&& t.phase matches PreviewPhase::ExtractorCopy { extraction }
                    &&& extraction.extractor_path@ == join(s.preview_root@, f)
                    &&& extraction.extracted_root@ == join(s.preview_root@, "squashfs-root"@)
                    &&& n == Next::<PreviewResponse>::Act(
                        Action::CopyFile { from: source, to: extraction.extractor_path },
                    )
                },
            }
        } else if kind == PackageKind::Unknown {
            refused(s, t, n, InstallError::UnsupportedKind)
        } else if kind == PackageKind::Tarball && tar_flag(source@) is None {
            refused(s, t, n, InstallError::UnsupportedTarFormat)
        } else {
            &&& moved(s, s.reports@, t)
            &&& t.phase is ArchiveRun
            &&& n matches Next::Act(Action::Run { command, directory, quiet_launcher })
            &&& extract_command_ok(command, source@, kind, s.preview_root@)
            &&& directory is None
            &&& !quiet_launcher
        },
        (PreviewPhase::ExtractorCopy { .. }, Reply::Status(Err(d))) => refused(
            s,
            t,
            n,
            InstallError::Io(IoStep::PrepareAppImage, d),
        ),
        (PreviewPhase::ExtractorCopy { extraction }, Reply::Status(Ok(_))) => {
            &&& moved(s, s.reports@, t)
            &&& t.phase == PreviewPhase::ExtractorMode { extraction }
            &&& n == Next::<PreviewResponse>::Act(Action::ReadMode { path: extraction.extractor_path })
        },
        (PreviewPhase::ExtractorMode { .. }, Reply::Mode(Err(d))) => refused(
            s,
            t,
            n,
            InstallError::Io(IoStep::ReadMode, d),
        ),
        (PreviewPhase::ExtractorMode { extraction }, Reply::Mode(Ok(mode))) => {
            &&& moved(s, s.reports@, t)
            &&& t.phase == PreviewPhase::ExtractorSetMode { extraction }
            &&& n == Next::<PreviewResponse>::Act(
                Action::SetMode { path: extraction.extractor_path, mode: mode | 0o755u32 },
            )
        },
        (PreviewPhase::ExtractorSetMode { .. }, Reply::Status(Err(d))) => refused(
            s,
            t,
            n,
            InstallError::Io(IoStep::SetMode, d),
        ),
        (PreviewPhase::ExtractorSetMode { extraction }, Reply::Status(Ok(_))) => {
            &&& moved(s, s.reports@, t)
            &&& t.phase == PreviewPhase::AppImageRun { extraction }
            &&& n matches Next::Act(Action::Run { command, directory, quiet_launcher })
            &&& command.program == extraction.extractor_path
            &&& arg_views(command.args@) == seq!["--appimage-extract"@]
            &&& directory == Some(s.preview_root)
            &&& quiet_launcher
        },
        (PreviewPhase::AppImageRun { .. }, Reply::Ran(Err(d))) => refused(
            s,
            t,
            n,
            InstallError::Io(IoStep::RunAppImage, d),
        ),
        (PreviewPhase::AppImageRun { extraction }, Reply::Ran(Ok(succeeded))) => if succeeded {
            &&& moved(s, s.reports@, t)
            &&& t.phase == PreviewPhase::Squashfs { extraction }
            &&& n == Next::<PreviewResponse>::Act(Action::IsDir { path: extraction.extracted_root })
        } else {
            refused(s, t, n, InstallError::AppImageExtractFailed)
        },
        (PreviewPhase::Squashfs { extraction }, Reply::Found(is_dir)) => if is_dir {
            &&& t == PreviewFlow {
                preview_root: extraction.extracted_root,
                phase: PreviewPhase::Walk,
                reports: t.reports,
                ..s
            }
            &&& t.reports@ == s.reports@.push(
                Report::Extracted { appimage: true, root: extraction.extracted_root },
            )
            &&& n == Next::<PreviewResponse>::Act(Action::Walk { root: extraction.extracted_root })
        } else {
            refused(s, t, n, InstallError::NoSquashfsRoot)
        },
        (PreviewPhase::ArchiveRun, Reply::Ran(Err(d))) => refused(
            s,
            t,
            n,
            InstallError::Io(
                if kind == PackageKind::Tarball {
                    IoStep::RunTar
                } else {
                    IoStep::RunUnzip
                },
                d,
            ),
        ),
        (PreviewPhase::ArchiveRun, Reply::Ran(Ok(succeeded))) => if succeeded {
            &&& moved(
                s,
                s.reports@.push(Report::Extracted { appimage: false, root: s.preview_root }),
                t,
            )
            &&& t.phase is Walk
            &&& n == Next::<PreviewResponse>::Act(Action::Walk { root: s.preview_root })
        } else {
            refused(s, t, n, InstallError::ExtractFailed)
        },
        (PreviewPhase::Walk, Reply::Files(files)) => {
            let execs = offered_executables(s, files@);
            let paths = file_paths(files@);
            let icons = icon_choice(paths);
            let launchers = sorted_by(with_extension(paths, launcher_extensions()), path_order());
            if execs.len() == 0 {
                refused(s, t, n, InstallError::NoExecutables)
            } else {
                &&& t.executables@.len() == execs.len()
                &&& forall|i: int|
                    0 <= i < execs.len() ==> is_executable_candidate(
                        #[trigger] t.executables@[i],
                        execs[i],
                        executables_root(s),
                    )
                &&& t.icons@.len() == icons.len()
                &&& forall|i: int|
                    0 <= i < icons.len() ==> is_icon_candidate(
                        #[trigger] t.icons@[i],
                        icons[i],
                        s.preview_root@,
                    )
                &&& if launchers.len() > 0 {
                    &&& t == PreviewFlow {
                        executables: t.executables,
                        icons: t.icons,
                        phase: PreviewPhase::LauncherText,
                        ..s
                    }
                    &&& n matches Next::Act(Action::ReadText { path })
                    &&& path@ == launchers[0]
                } else {
                    icon_value_stage(
                        PreviewFlow {
                            executables: t.executables,
                            icons: t.icons,
                            metadata: no_metadata(),
                            ..s
                        },
                        t,
                        n,
                    )
                }
            }
        },
        (PreviewPhase::LauncherText, Reply::Text(text)) => {
            &&& t.metadata@ == match text {
                Ok(c) => metadata_of(c@),
                Err(_) => empty_metadata(),
            }
            &&& icon_value_stage(PreviewFlow { metadata: t.metadata, ..s }, t, n)
        },
        (PreviewPhase::IconValue { value }, Reply::Found(exists)) => if exists {
            finished(s, true, false, t, n)
        } else {
            &&& moved(s, s.reports@, t)
            &&& t.phase == PreviewPhase::IconRooted { value_exists: false }
            &&& n matches Next::Act(Action::Exists { path })
            &&& path@ == join(s.preview_root@, value@)
        },
        (PreviewPhase::IconRooted { value_exists }, Reply::Found(exists)) => finished(
            s,
            value_exists,
            exists,
            t,
            n,
        ),
        _ => false,
    }
}

fn copy_executables(v: &Vec<ExecutableCandidate>) -> (r: Vec<ExecutableCandidate>)
    ensures
        r@ == v@,
{
    let mut out: Vec<ExecutableCandidate> = Vec::new();
    let n = v.len();
    for i in 0..n
        invariant
            n == v@.len(),
            out@ == v@.take(i as int),
    {
        let c = &v[i];
        out.push(
            ExecutableCandidate {
                path: c.path.clone(),
                relative_path: c.relative_path.clone(),
                file_name: c.file_name.clone(),
                score: c.score,
            },
        );
        assert(v@.take(i + 1) =~= v@.take(i as int).push(v@[i as int]));
    }
    assert(v@.take(n as int) =~= v@);
    out
}

fn copy_icons(v: &Vec<IconCandidate>) -> (r: Vec<IconCandidate>)
    ensures
        r@ == v@,
{
    let mut out: Vec<IconCandidate> = Vec::new();
    let n = v.len();
    for i in 0..n
        invariant
            n == v@.len(),
            out@ == v@.take(i as int),
    {
        let c = &v[i];
        out.push(
            IconCandidate {
                path: c.path.clone(),
                relative_path: c.relative_path.clone(),
                file_name: c.file_name.clone(),
            },
        );
        assert(v@.take(i + 1) =~= v@.take(i as int).push(v@[i as int]));
    }
    assert(v@.take(n as int) =~= v@);
    out
}

fn parent_or_empty(path: &str) -> (r: String)
    ensures
        r@ == match parent(path@) {
            Some(p) => p,
            None => Seq::empty(),
        },
{
    let p = to_chars(path);
    match parent_chars(p.as_slice()) {
        Some(q) => from_chars(q.as_slice()),
        None => String::new(),
    }
}

impl PreviewFlow {
    /// Whether the preview waits on a reply of `reply`'s kind.
    pub fn accepts(&self, reply: &Reply) -> (r: bool)
        ensures
            r == preview_expects(self.phase, *reply),
    {
        match (&self.phase, reply) {
            (PreviewPhase::Source, Reply::Facts(_)) => true,
            (PreviewPhase::Clock, Reply::Clock(_)) => true,
            (PreviewPhase::PreviewDir, Reply::Status(_)) => true,
            (PreviewPhase::ExtractorCopy { .. }, Reply::Status(_)) => true,
            (PreviewPhase::ExtractorMode { .. }, Reply::Mode(_)) => true,
            (PreviewPhase::ExtractorSetMode { .. }, Reply::Status(_)) => true,
            (PreviewPhase::AppImageRun { .. }, Reply::Ran(_)) => true,
            (PreviewPhase::Squashfs { .. }, Reply::Found(_)) => true,
            (PreviewPhase::ArchiveRun, Reply::Ran(_)) => true,
            (PreviewPhase::Walk, Reply::Files(_)) => true,
            (PreviewPhase::LauncherText, Reply::Text(_)) => true,
            (PreviewPhase::IconValue { .. }, Reply::Found(_)) => true,
            (PreviewPhase::IconRooted { .. }, Reply::Found(_)) => true,
            (_, _) => false,
        }
    }

    /// Starts a preview (see `preview_start`); `temp_dir` is the system's
    /// directory for temporary files and `pid` the installer's process id.
    pub fn start(request: PreviewRequest, temp_dir: String, pid: u32) -> (r: (PreviewFlow, Next<PreviewResponse>))
        ensures
            preview_start(request, temp_dir, pid, r.0, r.1),
            r.1 matches Next::Act(a) ==> forall|reply: Reply|
                answers(a, reply) == preview_expects(r.0.phase, reply),
    {
        let source = to_chars(request.source_path.as_str());
        let failure = if request.package_kind == PackageKind::Unknown {
            Some(InstallError::UnknownPackage)
        } else if !(source.len() > 0 && source[0] == '/') {
            Some(InstallError::SourcePathNotAbsolute)
        } else {
            None
        };
        let path = request.source_path.clone();
        let mut flow = PreviewFlow {
            request,
            temp_dir,
            pid,
            app_name: String::new(),
            preview_root: String::new(),
            executables: Vec::new(),
            icons: Vec::new(),
            metadata: DesktopMetadata { name: None, icon: None, terminal: None, categories: None },
            reports: Vec::new(),
            phase: PreviewPhase::Source,
        };
        match failure {
            Some(e) => {
                flow.phase = PreviewPhase::Over;
                (flow, Next::Fail(e))
            },
            None => (flow, Next::Act(Action::Inspect { path })),
        }
    }

    fn refuse(&mut self, e: InstallError) -> (n: Next<PreviewResponse>)
        ensures
            refused(*old(self), *final(self), n, e),
    {
        self.phase = PreviewPhase::Over;
        Next::Fail(e)
    }

    fn finish(&mut self, value_exists: bool, rooted_exists: bool) -> (n: Next<PreviewResponse>)
        requires
            old(self).executables@.len() > 0,
        ensures
            finished(*old(self), value_exists, rooted_exists, *final(self), n),
    {
        self.phase = PreviewPhase::Over;
        let suggestion = read_desktop_suggestion(
            self.preview_root.as_str(),
            self.app_name.as_str(),
            self.icons.as_slice(),
            &self.metadata,
            value_exists,
            rooted_exists,
        );
        let steps = report_steps(&self.reports);
        let executables = copy_executables(&self.executables);
        let icons = copy_icons(&self.icons);
        match finish_preview(self.preview_root.clone(), executables, icons, suggestion, steps) {
            Ok(resp) => Next::Done(resp),
            Err(e) => vstd::pervasive::unreached(),
        }
    }

    /// The launcher's `Icon` value (see `icon_value_stage`).
    fn icon_value_exec(&mut self) -> (n: Next<PreviewResponse>)
        requires
            old(self).executables@.len() > 0,
        ensures
            icon_value_stage(*old(self), *final(self), n),
            preview_wf(*final(self)),
    {
        let value = match &self.metadata.icon {
            None => return self.finish(false, false),
            Some(v) => v.clone(),
        };
        let v = to_chars(value.as_str());
        let t = trim_chars(v.as_slice());
        if t.len() == 0 {
            return self.finish(false, false);
        }
        if v[0] == '/' {
            let path = value.clone();
            self.phase = PreviewPhase::IconValue { value };
            Next::Act(Action::Exists { path })
        } else {
            self.phase = PreviewPhase::IconRooted { value_exists: false };
            Next::Act(Action::Exists { path: path_join(self.preview_root.as_str(), value.as_str()) })
        }
    }

    fn on_preview_dir(&mut self) -> (n: Next<PreviewResponse>)
        ensures
            preview_step(
                PreviewFlow { phase: PreviewPhase::PreviewDir, ..*old(self) },
                Reply::Status(Ok(())),
                *final(self),
                n,
            ),
    {
        match self.request.package_kind {
            PackageKind::AppImage => match extract_appimage(
                self.request.source_path.as_str(),
                self.preview_root.as_str(),
            ) {
                Err(e) => self.refuse(e),
                Ok(extraction) => {
                    let to = extraction.extractor_path.clone();
                    self.phase = PreviewPhase::ExtractorCopy { extraction };
                    Next::Act(Action::CopyFile { from: self.request.source_path.clone(), to })
                },
            },
            PackageKind::Unknown => self.refuse(InstallError::UnsupportedKind),
            _ => match extract_archive(
                self.request.source_path.as_str(),
                self.request.package_kind,
                self.preview_root.as_str(),
            ) {
                Err(e) => self.refuse(e),
                Ok(command) => {
                    self.phase = PreviewPhase::ArchiveRun;
                    Next::Act(Action::Run { command, directory: None, quiet_launcher: false })
                },
            },
        }
    }

    fn on_walk(&mut self, files: Vec<(String, u32)>) -> (n: Next<PreviewResponse>)
        ensures
            preview_step(
                PreviewFlow { phase: PreviewPhase::Walk, ..*old(self) },
                Reply::Files(files),
                *final(self),
                n,
            ),
            preview_wf(*final(self)),
    {
        let ghost execs = offered_executables(
            PreviewFlow { phase: PreviewPhase::Walk, ..*old(self) },
            files@,
        );
        let executables = if self.request.package_kind == PackageKind::AppImage {
            let mut one: Vec<String> = Vec::new();
            one.push(self.request.source_path.clone());
            let root = parent_or_empty(self.request.source_path.as_str());
            assert(strings(one@) =~= execs);
            assert(forall|i: int| 0 <= i < one@.len() ==> #[trigger] one@[i]@ == strings(one@)[i]);
            executable_candidates(&one, root.as_str())
        } else {
            let found = executable_files(&files);
            let ordered = order_executables(found);
            assert(strings(ordered@) =~= execs);
            assert(forall|i: int| 0 <= i < ordered@.len() ==> #[trigger] ordered@[i]@ == strings(ordered@)[i]);
            executable_candidates(&ordered, self.preview_root.as_str())
        };
        if executables.len() == 0 {
            return self.refuse(InstallError::NoExecutables);
        }
        let paths = paths_of_files(&files);
        let icon_paths = find_icon_candidates(&paths);
        assert(forall|i: int| 0 <= i < icon_paths@.len() ==> #[trigger] icon_paths@[i]@ == strings(icon_paths@)[i]);
        let icons = icon_candidates(&icon_paths, self.preview_root.as_str());
        let launchers = find_desktop_files(&paths);
        assert(launchers@.len() > 0 ==> launchers@[0]@ == strings(launchers@)[0]);
        self.executables = executables;
        self.icons = icons;
        if launchers.len() > 0 {
            self.phase = PreviewPhase::LauncherText;
            Next::Act(Action::ReadText { path: launchers[0].clone() })
        } else {
            self.metadata = DesktopMetadata { name: None, icon: None, terminal: None, categories: None };
            self.icon_value_exec()
        }
    }

    /// One step of the preview (see `preview_step`): `reply` answers the
    /// last request. Each request it makes is answered by a reply of the
    /// kind it next accepts.
    pub fn resume(&mut self, reply: Reply) -> (n: Next<PreviewResponse>)
        requires
            preview_expects(old(self).phase, reply),
            preview_wf(*old(self)),
        ensures
            preview_step(*old(self), reply, *final(self), n),
            preview_wf(*final(self)),
            n matches Next::Act(a) ==> forall|r: Reply|
                answers(a, r) == preview_expects(final(self).phase, r),
    {
        let mut phase = PreviewPhase::Over;
        core::mem::swap(&mut phase, &mut self.phase);
        let kind = self.request.package_kind;
        match (phase, reply) {
            (PreviewPhase::Source, Reply::Facts(m)) => match validate_source(
                self.request.source_path.as_str(),
                kind,
                &m,
            ) {
                Err(e) => self.refuse(e),
                Ok(_) => {
                    self.app_name = app_name_of_path(self.request.source_path.as_str());
                    self.phase = PreviewPhase::Clock;
                    Next::Act(Action::Clock)
                },
            },
            (PreviewPhase::Clock, Reply::Clock(r)) => match r {
                Err(d) => self.refuse(InstallError::Io(IoStep::PreviewClock, d)),
                Ok(millis) => {
                    self.preview_root = preview_dir_path(
                        self.temp_dir.as_str(),
                        self.app_name.as_str(),
                        self.pid,
                        millis,
                    );
                    self.phase = PreviewPhase::PreviewDir;
                    Next::Act(Action::CreateDir { path: self.preview_root.clone() })
                },
            },
            (PreviewPhase::PreviewDir, Reply::Status(r)) => match r {
                Err(d) => self.refuse(InstallError::Io(IoStep::CreatePreviewDir, d)),
                Ok(_) => self.on_preview_dir(),
            },
            (PreviewPhase::ExtractorCopy { extraction }, Reply::Status(r)) => match r {
                Err(d) => self.refuse(InstallError::Io(IoStep::PrepareAppImage, d)),
                Ok(_) => {
                    let path = extraction.extractor_path.clone();
                    self.phase = PreviewPhase::ExtractorMode { extraction };
                    Next::Act(Action::ReadMode { path })
                },
            },
            (PreviewPhase::ExtractorMode { extraction }, Reply::Mode(r)) => match r {
                Err(d) => self.refuse(InstallError::Io(IoStep::ReadMode, d)),
                Ok(mode) => {
                    let path = extraction.extractor_path.clone();
                    self.phase = PreviewPhase::ExtractorSetMode { extraction };
                    Next::Act(Action::SetMode { path, mode: executable_mode(mode) })
                },
            },
            (PreviewPhase::ExtractorSetMode { extraction }, Reply::Status(r)) => match r {
                Err(d) => self.refuse(InstallError::Io(IoStep::SetMode, d)),
                Ok(_) => {
                    let mut args: Vec<String> = Vec::new();
                    args.push(owned("--appimage-extract"));
                    assert(arg_views(args@) =~= seq!["--appimage-extract"@]);
                    let command = ExtractCommand { program: extraction.extractor_path.clone(), args };
                    self.phase = PreviewPhase::AppImageRun { extraction };
                    Next::Act(
                        Action::Run {
                            command,
                            directory: Some(self.preview_root.clone()),
                            quiet_launcher: true,
                        },
                    )
                },
            },
            (PreviewPhase::AppImageRun { extraction }, Reply::Ran(r)) => match r {
                Err(d) => self.refuse(InstallError::Io(IoStep::RunAppImage, d)),
                Ok(succeeded) => if succeeded {
                    let path = extraction.extracted_root.clone();
                    self.phase = PreviewPhase::Squashfs { extraction };
                    Next::Act(Action::IsDir { path })
                } else {
                    self.refuse(InstallError::AppImageExtractFailed)
                },
            },
            (PreviewPhase::Squashfs { extraction }, Reply::Found(is_dir)) => {
                match appimage_extraction_outcome(true, is_dir, &extraction) {
                    Err(e) => self.refuse(e),
                    Ok(root) => {
                        self.preview_root = extraction.extracted_root.clone();
                        self.reports.push(
                            Report::Extracted { appimage: true, root: extraction.extracted_root.clone() },
                        );
                        self.phase = PreviewPhase::Walk;
                        Next::Act(Action::Walk { root: extraction.extracted_root })
                    },
                }
            },
            (PreviewPhase::ArchiveRun, Reply::Ran(r)) => match r {
                Err(d) => if kind == PackageKind::Tarball {
                    self.refuse(InstallError::Io(IoStep::RunTar, d))
                } else {
                    self.refuse(InstallError::Io(IoStep::RunUnzip, d))
                },
                Ok(succeeded) => match extraction_outcome(succeeded) {
                    Err(e) => self.refuse(e),
                    Ok(_) => {
                        self.reports.push(
                            Report::Extracted { appimage: false, root: self.preview_root.clone() },
                        );
                        self.phase = PreviewPhase::Walk;
                        Next::Act(Action::Walk { root: self.preview_root.clone() })
                    },
                },
            },
            (PreviewPhase::Walk, Reply::Files(files)) => self.on_walk(files),
            (PreviewPhase::LauncherText, Reply::Text(text)) => {
                self.metadata = match text {
                    Ok(c) => parse_desktop_metadata(c.as_str()),
                    Err(_) => DesktopMetadata { name: None, icon: None, terminal: None, categories: None },
                };
                self.icon_value_exec()
            },
            (PreviewPhase::IconValue { value }, Reply::Found(exists)) => if exists {
                self.finish(true, false)
            } else {
                self.phase = PreviewPhase::IconRooted { value_exists: false };
                Next::Act(Action::Exists { path: path_join(self.preview_root.as_str(), value.as_str()) })
            },
            (PreviewPhase::IconRooted { value_exists }, Reply::Found(exists)) => self.finish(
                value_exists,
                exists,
            ),
            (_, _) => vstd::pervasive::unreached(),
        }
    }
}

} // verus!
