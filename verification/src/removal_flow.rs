//! The removal of an installed application as a step machine: it finds
//! the application's directory under the installation directory, refuses
//! one that resolves elsewhere, and removes the application's launcher,
//! its command-line link and its files, recording each step. The caller
//! performs every request it makes.
use vstd::prelude::*;
use crate::errors::{InstallError, IoStep};
use crate::flow::{answers, Action, Next, Reply};
use crate::install::{check_uninstall_root, removal_check, uninstall_target};
use crate::model::InstallStep;
use crate::names::{install_dir_result, opt_str_view, sanitized_stem, validate_install_dir};
use crate::paths::{join, opt_view};
use crate::report::{report_steps, reports_view, steps_view, Report};
use crate::search::{
    launcher_search_expects, launcher_search_start, launcher_search_step, launcher_search_wf,
    link_search_expects, link_search_start, link_search_step, link_search_wf, LauncherSearch,
    LinkSearch,
};
use crate::text::trim;

verus! {

/// What the user asked to remove.
#[derive(Debug, Clone)]
pub struct UninstallRequest {
    pub install_dir: String,
    pub app_name: String,
}

/// What a removal reports.
#[derive(Debug, Clone)]
pub struct UninstallResponse {
    pub app_name: String,
    pub steps: Vec<InstallStep>,
}

/// The request a removal waits on.
#[derive(Debug)]
pub enum RemovalPhase {
    /// The canonical installation directory.
    InstallDir,
    /// The canonical application directory.
    InstallRoot,
    /// The search for the application's launcher.
    Launcher { search: LauncherSearch },
    /// The removal of the launcher.
    LauncherRemoval { path: String },
    /// The search for the application's command-line link.
    Link { search: LinkSearch },
    /// The removal of the link.
    LinkRemoval { path: String },
    /// The removal of the application's directory.
    Files,
    /// Nothing: the removal finished or was refused.
    Over,
}

/// A removal under way.
#[derive(Debug)]
pub struct RemovalFlow {
    /// The value of `HOME`, if it is set.
    pub home: Option<String>,
    /// The installation directory, checked.
    pub install_dir: String,
    /// The application's name, made a file stem.
    pub app_name: String,
    /// The application's directory under the installation directory.
    pub install_root: String,
    /// The canonical installation directory, once resolved.
    pub canonical_dir: String,
    /// Its canonical form, once checked.
    pub canonical_root: String,
    /// What was done so far.
    pub reports: Vec<Report>,
    pub phase: RemovalPhase,
}

/// The reply a removal waits on in `phase` is of `reply`'s kind.
pub open spec fn removal_expects(phase: RemovalPhase, reply: Reply) -> bool {
    match phase {
        RemovalPhase::InstallDir => reply is Canonical,
        RemovalPhase::InstallRoot => reply is Canonical,
        RemovalPhase::Launcher { search } => launcher_search_expects(search.phase, reply),
        RemovalPhase::LauncherRemoval { .. } => reply is Status,
        RemovalPhase::Link { search } => link_search_expects(search.phase, reply),
        RemovalPhase::LinkRemoval { .. } => reply is Status,
        RemovalPhase::Files => reply is Status,
        RemovalPhase::Over => false,
    }
}

/// A removal's searches are well formed.
pub open spec fn removal_wf(s: RemovalFlow) -> bool {
    match s.phase {
        RemovalPhase::Launcher { search } => launcher_search_wf(search),
        RemovalPhase::Link { search } => link_search_wf(search),
        _ => true,
    }
}

/// `t` is `s` with the reports `reports` and the phase `t.phase`.
pub open spec fn moved(s: RemovalFlow, reports: Seq<Report>, t: RemovalFlow) -> bool {
    t == RemovalFlow { phase: t.phase, reports: t.reports, ..s } && t.reports@ == reports
}

/// The removal was refused with `e`.
pub open spec fn refused(s: RemovalFlow, t: RemovalFlow, n: Next<UninstallResponse>, e: InstallError) -> bool {
    &&& moved(s, s.reports@, t)
    &&& t.phase is Over
    &&& n == Next::<UninstallResponse>::Fail(e)
}

/// The application's directory, last: it is removed with everything in
/// it.
pub open spec fn files_stage(s: RemovalFlow, reports: Seq<Report>, t: RemovalFlow, n: Next<UninstallResponse>) -> bool {
    &&& moved(s, reports, t)
    &&& t.phase is Files
    &&& n == Next::<UninstallResponse>::Act(Action::RemoveTree { path: s.canonical_root })
}

/// What the link search found: a link is removed; without one the step
/// is recorded as skipped.
pub open spec fn link_found(
    s: RemovalFlow,
    reports: Seq<Report>,
    found: Option<String>,
    t: RemovalFlow,
    n: Next<UninstallResponse>,
) -> bool {
    match found {
        Some(path) => {
            &&& moved(s, reports, t)
            &&& t.phase == RemovalPhase::LinkRemoval { path }
            &&& n == Next::<UninstallResponse>::Act(Action::RemoveFile { path })
        },
        None => files_stage(s, reports.push(Report::LinkNotFound), t, n),
    }
}

/// Where a step of the link search leads.
pub open spec fn link_outcome(
    s: RemovalFlow,
    reports: Seq<Report>,
    u: LinkSearch,
    m: Next<Option<String>>,
    t: RemovalFlow,
    n: Next<UninstallResponse>,
) -> bool {
    match m {
        Next::Act(a) => {
            &&& moved(s, reports, t)
            &&& t.phase == RemovalPhase::Link { search: u }
            &&& n == Next::<UninstallResponse>::Act(a)
        },
        Next::Done(found) => link_found(s, reports, found, t, n),
        Next::Fail(_) => false,
    }
}

/// The link search, once the launcher is dealt with.
pub open spec fn link_stage(s: RemovalFlow, reports: Seq<Report>, t: RemovalFlow, n: Next<UninstallResponse>) -> bool {
    exists|u: LinkSearch, m: Next<Option<String>>|
        #[trigger] link_search_start(opt_view(s.home), s.canonical_root@, u, m) && link_search_wf(u)
            && link_outcome(s, reports, u, m, t, n)
}

/// What the launcher search found: a launcher is removed; without one the
/// step is recorded as skipped.
pub open spec fn launcher_found(
    s: RemovalFlow,
    found: Option<String>,
    t: RemovalFlow,
    n: Next<UninstallResponse>,
) -> bool {
    match found {
        Some(path) => {
            &&& moved(s, s.reports@, t)
            &&& t.phase == RemovalPhase::LauncherRemoval { path }
            &&& n == Next::<UninstallResponse>::Act(Action::RemoveFile { path })
        },
        None => link_stage(s, s.reports@.push(Report::LauncherNotFound), t, n),
    }
}

/// Where a step of the launcher search leads.
pub open spec fn launcher_outcome(
    s: RemovalFlow,
    u: LauncherSearch,
    m: Next<Option<String>>,
    t: RemovalFlow,
    n: Next<UninstallResponse>,
) -> bool {
    match m {
        Next::Act(a) => {
            &&& moved(s, s.reports@, t)
            &&& t.phase == RemovalPhase::Launcher { search: u }
            &&& n == Next::<UninstallResponse>::Act(a)
        },
        Next::Done(found) => launcher_found(s, found, t, n),
        Next::Fail(_) => false,
    }
}

/// The launcher search, once the application's directory is resolved.
pub open spec fn launcher_stage(s: RemovalFlow, t: RemovalFlow, n: Next<UninstallResponse>) -> bool {
    exists|u: LauncherSearch, m: Next<Option<String>>|
        #[trigger] launcher_search_start(opt_view(s.home), s.canonical_root@, u, m)
            && launcher_search_wf(u) && launcher_outcome(s, u, m, t, n)
}

/// How a removal starts: the installation directory is checked as for an
/// installation, the application's name is made a file stem, and the
/// installation directory is resolved first.
pub open spec fn removal_start(
    request: UninstallRequest,
    home: Option<String>,
    t: RemovalFlow,
    n: Next<UninstallResponse>,
) -> bool {
    match install_dir_result(request.install_dir@, opt_view(home)) {
        Err(e) => t.phase is Over && n == Next::<UninstallResponse>::Fail(e),
        Ok(dir) => {
            &&& t.home == home
            &&& t.install_dir@ == dir
            &&& t.app_name@ == sanitized_stem(trim(request.app_name@))
            &&& t.install_root@ == join(dir, t.app_name@)
            &&& t.reports@ == Seq::<Report>::empty()
            &&& t.phase is InstallDir
            &&& n == Next::<UninstallResponse>::Act(Action::Canonicalize { path: t.install_dir })
        },
    }
}

/// One step of a removal: what it does with the reply to its last
/// request. The application's directory must resolve, and lie under the
/// resolved installation directory.
pub open spec fn removal_step(s: RemovalFlow, reply: Reply, t: RemovalFlow, n: Next<UninstallResponse>) -> bool {
    let s0 = RemovalFlow { phase: RemovalPhase::Over, ..s };
    match (s.phase, reply) {
        (RemovalPhase::InstallDir, Reply::Canonical(Err(d))) => refused(
            s0,
            t,
            n,
            InstallError::ReadInstallDir(d),
        ),
        (RemovalPhase::InstallDir, Reply::Canonical(Ok(dir))) => {
            &&& t == RemovalFlow { phase: RemovalPhase::InstallRoot, canonical_dir: dir, ..s }
            &&& n == Next::<UninstallResponse>::Act(Action::Canonicalize { path: s.install_root })
        },
        (RemovalPhase::InstallRoot, Reply::Canonical(r)) => match removal_check(
            Ok(s.canonical_dir),
            match r {
                Ok(root) => Some(root@),
                Err(_) => None,
            },
        ) {
            Err(e) => refused(s0, t, n, e),
            Ok(root) => {
                &&& t.canonical_root@ == root
                &&& launcher_stage(
                    RemovalFlow { canonical_root: t.canonical_root, ..s0 },
                    t,
                    n,
                )
            },
        },
        (RemovalPhase::Launcher { search }, _) => exists|u: LauncherSearch, m: Next<Option<String>>|
            #[trigger] launcher_search_step(search, reply, u, m) && launcher_search_wf(u)
                && launcher_outcome(s0, u, m, t, n),
        (RemovalPhase::LauncherRemoval { .. }, Reply::Status(Err(d))) => refused(
            s0,
            t,
            n,
            InstallError::Io(IoStep::DeleteLauncher, d),
        ),
        (RemovalPhase::LauncherRemoval { path }, Reply::Status(Ok(_))) => link_stage(
            s0,
            s.reports@.push(Report::LauncherRemoved { path }),
            t,
            n,
        ),
        (RemovalPhase::Link { search }, _) => exists|u: LinkSearch, m: Next<Option<String>>|
            #[trigger] link_search_step(search, reply, u, m) && link_search_wf(u) && link_outcome(
                s0,
                s.reports@,
                u,
                m,
                t,
                n,
            ),
        (RemovalPhase::LinkRemoval { .. }, Reply::Status(Err(d))) => refused(
            s0,
            t,
            n,
            InstallError::Io(IoStep::DeleteLink, d),
        ),
        (RemovalPhase::LinkRemoval { path }, Reply::Status(Ok(_))) => files_stage(
            s0,
            s.reports@.push(Report::LinkRemoved { path }),
            t,
            n,
        ),
        (RemovalPhase::Files, Reply::Status(Err(d))) => refused(
            s0,
            t,
            n,
            InstallError::Io(IoStep::DeleteAppDir, d),
        ),
        (RemovalPhase::Files, Reply::Status(Ok(_))) => {
            let reports = s.reports@.push(Report::FilesRemoved { root: s.canonical_root });
            &&& moved(s0, reports, t)
            &&& t.phase is Over
            &&& n matches Next::Done(resp)
            &&& resp.app_name == s.app_name
            &&& steps_view(resp.steps@) == reports_view(reports)
        },
        _ => false,
    }
}

fn opt_as_str(o: &Option<String>) -> (r: Option<&str>)
    ensures
        opt_str_view(r) == opt_view(*o),
{
    match o {
        Some(s) => Some(s.as_str()),
        None => None,
    }
}

impl RemovalFlow {
    /// Whether the removal waits on a reply of `reply`'s kind.
    pub fn accepts(&self, reply: &Reply) -> (r: bool)
        ensures
            r == removal_expects(self.phase, *reply),
    {
        match (&self.phase, reply) {
            (RemovalPhase::InstallDir, Reply::Canonical(_)) => true,
            (RemovalPhase::InstallRoot, Reply::Canonical(_)) => true,
            (RemovalPhase::Launcher { search }, _) => search.accepts(reply),
            (RemovalPhase::LauncherRemoval { .. }, Reply::Status(_)) => true,
            (RemovalPhase::Link { search }, _) => search.accepts(reply),
            (RemovalPhase::LinkRemoval { .. }, Reply::Status(_)) => true,
            (RemovalPhase::Files, Reply::Status(_)) => true,
            (_, _) => false,
        }
    }

    /// Starts a removal (see `removal_start`); `home` is the value of
    /// `HOME`, if it is set.
    pub fn start(request: UninstallRequest, home: Option<String>) -> (r: (RemovalFlow, Next<UninstallResponse>))
        ensures
            removal_start(request, home, r.0, r.1),
            removal_wf(r.0),
            r.1 matches Next::Act(a) ==> forall|reply: Reply|
                answers(a, reply) == removal_expects(r.0.phase, reply),
    {
        let checked = validate_install_dir(request.install_dir.as_str(), opt_as_str(&home));
        let mut flow = RemovalFlow {
            home,
            install_dir: String::new(),
            app_name: String::new(),
            install_root: String::new(),
            canonical_dir: String::new(),
            canonical_root: String::new(),
            reports: Vec::new(),
            phase: RemovalPhase::InstallDir,
        };
        match checked {
            Err(e) => {
                flow.phase = RemovalPhase::Over;
                (flow, Next::Fail(e))
            },
            Ok(dir) => {
                let (name, root) = uninstall_target(dir.as_str(), request.app_name.as_str());
                let path = dir.clone();
                flow.install_dir = dir;
                flow.app_name = name;
                flow.install_root = root;
                (flow, Next::Act(Action::Canonicalize { path }))
            },
        }
    }

    fn refuse(&mut self, e: InstallError) -> (n: Next<UninstallResponse>)
        ensures
            refused(*old(self), *final(self), n, e),
            removal_wf(*final(self)),
    {
        self.phase = RemovalPhase::Over;
        Next::Fail(e)
    }

    fn files_stage_exec(&mut self) -> (n: Next<UninstallResponse>)
        ensures
            files_stage(*old(self), old(self).reports@, *final(self), n),
            removal_wf(*final(self)),
            final(self).canonical_root == old(self).canonical_root,
    {
        self.phase = RemovalPhase::Files;
        Next::Act(Action::RemoveTree { path: self.canonical_root.clone() })
    }

    fn link_found_exec(&mut self, found: Option<String>) -> (n: Next<UninstallResponse>)
        ensures
            link_found(*old(self), old(self).reports@, found, *final(self), n),
            removal_wf(*final(self)),
            final(self).canonical_root == old(self).canonical_root,
    {
        match found {
            Some(path) => {
                let p = path.clone();
                self.phase = RemovalPhase::LinkRemoval { path };
                Next::Act(Action::RemoveFile { path: p })
            },
            None => {
                self.reports.push(Report::LinkNotFound);
                self.files_stage_exec()
            },
        }
    }

    fn link_outcome_exec(&mut self, search: LinkSearch, m: Next<Option<String>>) -> (n: Next<UninstallResponse>)
        requires
            link_search_wf(search),
            !(m is Fail),
        ensures
            link_outcome(*old(self), old(self).reports@, search, m, *final(self), n),
            removal_wf(*final(self)),
            final(self).canonical_root == old(self).canonical_root,
    {
        match m {
            Next::Act(a) => {
                self.phase = RemovalPhase::Link { search };
                Next::Act(a)
            },
            Next::Done(found) => self.link_found_exec(found),
            Next::Fail(_) => vstd::pervasive::unreached(),
        }
    }

    fn link_stage_exec(&mut self) -> (n: Next<UninstallResponse>)
        ensures
            link_stage(*old(self), old(self).reports@, *final(self), n),
            removal_wf(*final(self)),
            final(self).canonical_root == old(self).canonical_root,
    {
        let (search, m) = LinkSearch::start(opt_as_str(&self.home), self.canonical_root.as_str());
        let ghost u = search;
        let ghost mm = m;
        let n = self.link_outcome_exec(search, m);
        assert(link_search_start(opt_view(old(self).home), old(self).canonical_root@, u, mm));
        n
    }

    fn launcher_found_exec(&mut self, found: Option<String>) -> (n: Next<UninstallResponse>)
        ensures
            launcher_found(*old(self), found, *final(self), n),
            removal_wf(*final(self)),
            final(self).canonical_root == old(self).canonical_root,
    {
        match found {
            Some(path) => {
                let p = path.clone();
                self.phase = RemovalPhase::LauncherRemoval { path };
                Next::Act(Action::RemoveFile { path: p })
            },
            None => {
                self.reports.push(Report::LauncherNotFound);
                self.link_stage_exec()
            },
        }
    }

    fn launcher_outcome_exec(&mut self, search: LauncherSearch, m: Next<Option<String>>) -> (n: Next<
        UninstallResponse,
    >)
        requires
            launcher_search_wf(search),
            !(m is Fail),
        ensures
            launcher_outcome(*old(self), search, m, *final(self), n),
            removal_wf(*final(self)),
            final(self).canonical_root == old(self).canonical_root,
    {
        match m {
            Next::Act(a) => {
                self.phase = RemovalPhase::Launcher { search };
                Next::Act(a)
            },
            Next::Done(found) => self.launcher_found_exec(found),
            Next::Fail(_) => vstd::pervasive::unreached(),
        }
    }

    fn on_install_root(&mut self, r: Result<String, String>) -> (n: Next<UninstallResponse>)
        ensures
            removal_step(
                RemovalFlow { phase: RemovalPhase::InstallRoot, ..*old(self) },
                Reply::Canonical(r),
                *final(self),
                n,
            ),
            removal_wf(*final(self)),
    {
        let root = match &r {
            Ok(root) => Some(root.as_str()),
            Err(_) => None,
        };
        assert(opt_str_view(root) == match r {
            Ok(x) => Some(x@),
            Err(_) => None::<Seq<char>>,
        });
        match check_uninstall_root(&Ok(self.canonical_dir.clone()), root) {
            Err(e) => self.refuse(e),
            Ok(croot) => {
                self.canonical_root = croot;
                self.phase = RemovalPhase::Over;
                let (search, m) = LauncherSearch::start(opt_as_str(&self.home), self.canonical_root.as_str());
                let ghost u = search;
                let ghost mm = m;
                let ghost mid = *self;
                let n = self.launcher_outcome_exec(search, m);
                assert(launcher_search_start(opt_view(mid.home), mid.canonical_root@, u, mm));
                assert(self.canonical_root == mid.canonical_root);
                n
            },
        }
    }

    fn on_launcher(&mut self, search: LauncherSearch, reply: Reply) -> (n: Next<UninstallResponse>)
        requires
            launcher_search_expects(search.phase, reply),
            launcher_search_wf(search),
        ensures
            removal_step(
                RemovalFlow { phase: RemovalPhase::Launcher { search }, ..*old(self) },
                reply,
                *final(self),
                n,
            ),
            removal_wf(*final(self)),
    {
        self.phase = RemovalPhase::Over;
        let mut search = search;
        let ghost before = search;
        let m = search.resume(reply);
        let ghost u = search;
        let ghost mm = m;
        let n = self.launcher_outcome_exec(search, m);
        assert(launcher_search_step(before, reply, u, mm));
        n
    }

    fn on_link(&mut self, search: LinkSearch, reply: Reply) -> (n: Next<UninstallResponse>)
        requires
            link_search_expects(search.phase, reply),
            link_search_wf(search),
        ensures
            removal_step(
                RemovalFlow { phase: RemovalPhase::Link { search }, ..*old(self) },
                reply,
                *final(self),
                n,
            ),
            removal_wf(*final(self)),
    {
        self.phase = RemovalPhase::Over;
        let mut search = search;
        let ghost before = search;
        let m = search.resume(reply);
        let ghost u = search;
        let ghost mm = m;
        let n = self.link_outcome_exec(search, m);
        assert(link_search_step(before, reply, u, mm));
        n
    }

    /// One step of the removal (see `removal_step`): `reply` answers the
    /// last request. Each request it makes is answered by a reply of the
    /// kind it next accepts.
    pub fn resume(&mut self, reply: Reply) -> (n: Next<UninstallResponse>)
        requires
            removal_expects(old(self).phase, reply),
            removal_wf(*old(self)),
        ensures
            removal_step(*old(self), reply, *final(self), n),
            removal_wf(*final(self)),
            n matches Next::Act(a) ==> forall|r: Reply|
                answers(a, r) == removal_expects(final(self).phase, r),
    {
        let mut phase = RemovalPhase::Over;
        core::mem::swap(&mut phase, &mut self.phase);
        match phase {
            RemovalPhase::InstallDir => match reply {
                Reply::Canonical(Err(d)) => self.refuse(InstallError::ReadInstallDir(d)),
                Reply::Canonical(Ok(dir)) => {
                    self.canonical_dir = dir;
                    self.phase = RemovalPhase::InstallRoot;
                    Next::Act(Action::Canonicalize { path: self.install_root.clone() })
                },
                _ => vstd::pervasive::unreached(),
            },
            RemovalPhase::InstallRoot => match reply {
                Reply::Canonical(r) => self.on_install_root(r),
                _ => vstd::pervasive::unreached(),
            },
            RemovalPhase::Launcher { search } => self.on_launcher(search, reply),
            RemovalPhase::LauncherRemoval { path } => match reply {
                Reply::Status(Err(d)) => self.refuse(InstallError::Io(IoStep::DeleteLauncher, d)),
                Reply::Status(Ok(_)) => {
                    self.reports.push(Report::LauncherRemoved { path });
                    self.link_stage_exec()
                },
                _ => vstd::pervasive::unreached(),
            },
            RemovalPhase::Link { search } => self.on_link(search, reply),
            RemovalPhase::LinkRemoval { path } => match reply {
                Reply::Status(Err(d)) => self.refuse(InstallError::Io(IoStep::DeleteLink, d)),
                Reply::Status(Ok(_)) => {
                    self.reports.push(Report::LinkRemoved { path });
                    self.files_stage_exec()
                },
                _ => vstd::pervasive::unreached(),
            },
            RemovalPhase::Files => match reply {
                Reply::Status(Err(d)) => self.refuse(InstallError::Io(IoStep::DeleteAppDir, d)),
                Reply::Status(Ok(_)) => {
                    self.reports.push(Report::FilesRemoved { root: self.canonical_root.clone() });
                    self.phase = RemovalPhase::Over;
                    let steps = report_steps(&self.reports);
                    Next::Done(UninstallResponse { app_name: self.app_name.clone(), steps })
                },
                _ => vstd::pervasive::unreached(),
            },
            RemovalPhase::Over => vstd::pervasive::unreached(),
        }
    }
}

} // verus!
