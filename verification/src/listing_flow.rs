//! The listing of installed applications as a step machine: every
//! directory in the installation directory is an application, shown with
//! its first executable, its launcher and its command-line link; the
//! applications are sorted by name. The caller performs every request it
//! makes.
use vstd::prelude::*;
use crate::candidates::{executable_files, executable_order, executable_paths, order_executables, strings};
use crate::errors::{InstallError, IoStep};
use crate::flow::{answers, Action, DirEntryInfo, ListingFailure, Next, Reply};
use crate::install::{app_order, sort_installed_apps, InstalledApp};
use crate::names::{install_dir_result, opt_str_view, validate_install_dir};
use crate::paths::opt_view;
use crate::search::{
    launcher_search_expects, launcher_search_start, launcher_search_step, launcher_search_wf,
    link_search_expects, link_search_start, link_search_step, link_search_wf, LauncherSearch,
    LinkSearch,
};
use crate::sorting::sorted_by;

verus! {

/// What the user asked to list.
#[derive(Debug, Clone)]
pub struct InstalledAppsRequest {
    pub install_dir: String,
}

/// The request a listing waits on.
#[derive(Debug)]
pub enum ListingPhase {
    /// Whether the installation directory exists.
    DirExists,
    /// The entries of the installation directory.
    Listing,
    /// The files of the application at `index`.
    Walk,
    /// The search for its launcher; `executable` is its first executable.
    Launcher { executable: Option<String>, search: LauncherSearch },
    /// The search for its command-line link.
    Link { executable: Option<String>, launcher: Option<String>, search: LinkSearch },
    /// Nothing: the listing finished or was refused.
    Over,
}

/// A listing under way.
#[derive(Debug)]
pub struct ListingFlow {
    /// The value of `HOME`, if it is set.
    pub home: Option<String>,
    /// The installation directory, checked.
    pub install_dir: String,
    /// Its entries.
    pub entries: Vec<DirEntryInfo>,
    /// The entry being examined.
    pub index: usize,
    /// The applications found so far.
    pub apps: Vec<InstalledApp>,
    pub phase: ListingPhase,
}

/// The reply a listing waits on in `phase` is of `reply`'s kind.
pub open spec fn listing_expects(phase: ListingPhase, reply: Reply) -> bool {
    match phase {
        ListingPhase::DirExists => reply is Found,
        ListingPhase::Listing => reply is Dir,
        ListingPhase::Walk => reply is Files,
        ListingPhase::Launcher { search, .. } => launcher_search_expects(search.phase, reply),
        ListingPhase::Link { search, .. } => link_search_expects(search.phase, reply),
        ListingPhase::Over => false,
    }
}

/// A listing examines entries within its list, with well-formed searches.
pub open spec fn listing_wf(s: ListingFlow) -> bool {
    match s.phase {
        ListingPhase::Walk => s.index < s.entries@.len(),
        ListingPhase::Launcher { search, .. } => s.index < s.entries@.len() && launcher_search_wf(search),
        ListingPhase::Link { search, .. } => s.index < s.entries@.len() && link_search_wf(search),
        _ => true,
    }
}

/// `t` is `s` with the applications `apps` and the phase `t.phase`.
pub open spec fn moved(s: ListingFlow, apps: Seq<InstalledApp>, t: ListingFlow) -> bool {
    t == ListingFlow { phase: t.phase, apps: t.apps, ..s } && t.apps@ == apps
}

/// The first executable among the files of an application, as
/// executables are offered.
pub open spec fn first_executable(files: Seq<(String, u32)>) -> Option<Seq<char>> {
    let e = sorted_by(executable_paths(files), executable_order());
    if e.len() > 0 {
        Some(e[0])
    } else {
        None
    }
}

/// The index of the first directory among `entries` from `i` on.
pub open spec fn first_dir(entries: Seq<DirEntryInfo>, i: int) -> Option<int>
    decreases entries.len() - i,
{
    if i < 0 || i >= entries.len() {
        None
    } else if entries[i].is_dir {
        Some(i)
    } else {
        first_dir(entries, i + 1)
    }
}

/// The listing goes on from the entry at `i`: the files of the next
/// directory are asked for; when there is none, the applications found
/// are the result, sorted by name.
pub open spec fn next_app(s: ListingFlow, apps: Seq<InstalledApp>, i: int, t: ListingFlow, n: Next<Vec<InstalledApp>>) -> bool {
    match first_dir(s.entries@, i) {
        None => {
            &&& t.phase is Over
            &&& n matches Next::Done(list)
            &&& list@ == sorted_by(apps, app_order())
        },
        Some(j) => {
            &&& t == ListingFlow { phase: ListingPhase::Walk, index: j as usize, apps: t.apps, ..s }
            &&& t.apps@ == apps
            &&& n == Next::<Vec<InstalledApp>>::Act(Action::Walk { root: s.entries@[j].path })
        },
    }
}

/// The application at the current entry, once both searches are over.
pub open spec fn app_of(
    entry: DirEntryInfo,
    executable: Option<String>,
    launcher: Option<String>,
    link: Option<String>,
) -> InstalledApp {
    InstalledApp {
        app_name: entry.name,
        install_root: entry.path,
        executable_path: executable,
        desktop_entry_path: launcher,
        path_link: link,
    }
}

/// Where a step of the link search leads.
pub open spec fn link_outcome(
    s: ListingFlow,
    executable: Option<String>,
    launcher: Option<String>,
    u: LinkSearch,
    m: Next<Option<String>>,
    t: ListingFlow,
    n: Next<Vec<InstalledApp>>,
) -> bool {
    match m {
        Next::Act(a) => {
            &&& moved(s, s.apps@, t)
            &&& t.phase == ListingPhase::Link { executable, launcher, search: u }
            &&& n == Next::<Vec<InstalledApp>>::Act(a)
        },
        Next::Done(link) => next_app(
            s,
            s.apps@.push(app_of(s.entries@[s.index as int], executable, launcher, link)),
            s.index + 1,
            t,
            n,
        ),
        Next::Fail(_) => false,
    }
}

/// The link search of the current entry.
pub open spec fn link_stage(
    s: ListingFlow,
    executable: Option<String>,
    launcher: Option<String>,
    t: ListingFlow,
    n: Next<Vec<InstalledApp>>,
) -> bool {
    exists|u: LinkSearch, m: Next<Option<String>>|
        #[trigger] link_search_start(opt_view(s.home), s.entries@[s.index as int].path@, u, m)
            && link_search_wf(u) && link_outcome(s, executable, launcher, u, m, t, n)
}

/// Where a step of the launcher search leads.
pub open spec fn launcher_outcome(
    s: ListingFlow,
    executable: Option<String>,
    u: LauncherSearch,
    m: Next<Option<String>>,
    t: ListingFlow,
    n: Next<Vec<InstalledApp>>,
) -> bool {
    match m {
        Next::Act(a) => {
            &&& moved(s, s.apps@, t)
            &&& t.phase == ListingPhase::Launcher { executable, search: u }
            &&& n == Next::<Vec<InstalledApp>>::Act(a)
        },
        Next::Done(launcher) => link_stage(s, executable, launcher, t, n),
        Next::Fail(_) => false,
    }
}

/// The launcher search of the current entry.
pub open spec fn launcher_stage(
    s: ListingFlow,
    executable: Option<String>,
    t: ListingFlow,
    n: Next<Vec<InstalledApp>>,
) -> bool {
    exists|u: LauncherSearch, m: Next<Option<String>>|
        #[trigger] launcher_search_start(opt_view(s.home), s.entries@[s.index as int].path@, u, m)
            && launcher_search_wf(u) && launcher_outcome(s, executable, u, m, t, n)
}

/// How a listing starts: the installation directory is checked as for an
/// installation, then asked whether it exists.
pub open spec fn listing_start(
    request: InstalledAppsRequest,
    home: Option<String>,
    t: ListingFlow,
    n: Next<Vec<InstalledApp>>,
) -> bool {
    match install_dir_result(request.install_dir@, opt_view(home)) {
        Err(e) => t.phase is Over && n == Next::<Vec<InstalledApp>>::Fail(e),
        Ok(dir) => {
            &&& t.home == home
            &&& t.install_dir@ == dir
            &&& t.apps@ == Seq::<InstalledApp>::empty()
            &&& t.phase is DirExists
            &&& n == Next::<Vec<InstalledApp>>::Act(Action::Exists { path: t.install_dir })
        },
    }
}

/// One step of a listing: what it does with the reply to its last request.
/// A missing installation directory holds no application; a directory
/// that cannot be listed is refused; entries that are not directories are
/// passed over. (The stages are stated of the listing with its phase set
/// aside.)
pub open spec fn listing_step(s: ListingFlow, reply: Reply, t: ListingFlow, n: Next<Vec<InstalledApp>>) -> bool {
    let s0 = ListingFlow { phase: ListingPhase::Over, ..s };
    match (s.phase, reply) {
        (ListingPhase::DirExists, Reply::Found(exists)) => if exists {
            &&& moved(s0, s.apps@, t)
            &&& t.phase is Listing
            &&& n == Next::<Vec<InstalledApp>>::Act(Action::ReadDir { path: s.install_dir })
        } else {
            &&& t.phase is Over
            &&& n matches Next::Done(list)
            &&& list@ == Seq::<InstalledApp>::empty()
        },
        (ListingPhase::Listing, Reply::Dir(Err(failure))) => {
            &&& moved(s0, s.apps@, t)
            &&& t.phase is Over
            &&& n == Next::<Vec<InstalledApp>>::Fail(
                match failure {
                    ListingFailure::Dir(d) => InstallError::ReadInstallDir(d),
                    ListingFailure::Entry(d) => InstallError::Io(IoStep::ReadInstallDirEntry, d),
                    ListingFailure::Info(d) => InstallError::Io(IoStep::ReadInstallDirEntryInfo, d),
                },
            )
        },
        (ListingPhase::Listing, Reply::Dir(Ok(entries))) => next_app(
            ListingFlow { entries, ..s0 },
            s.apps@,
            0,
            t,
            n,
        ),
        (ListingPhase::Walk, Reply::Files(files)) => exists|executable: Option<String>|
            opt_view(executable) == first_executable(files@) && #[trigger] launcher_stage(
                s0,
                executable,
                t,
                n,
            ),
        (ListingPhase::Launcher { executable, search }, _) => exists|
            u: LauncherSearch,
            m: Next<Option<String>>,
        |
            #[trigger] launcher_search_step(search, reply, u, m) && launcher_search_wf(u)
                && launcher_outcome(s0, executable, u, m, t, n),
        (ListingPhase::Link { executable, launcher, search }, _) => exists|
            u: LinkSearch,
            m: Next<Option<String>>,
        |
            #[trigger] link_search_step(search, reply, u, m) && link_search_wf(u) && link_outcome(
                s0,
                executable,
                launcher,
                u,
                m,
                t,
                n,
            ),
        _ => false,
    }
}

fn opt_as_str(o: &Option<String>) -> (r: Option<&str>)
    ensures
        opt_str_view(r) == opt_view(*o),
{
    match o {
        Some(s) => Some(s.as_str()),
        None => None,
    }
}

impl ListingFlow {
    /// Whether the listing waits on a reply of `reply`'s kind.
    pub fn accepts(&self, reply: &Reply) -> (r: bool)
        ensures
            r == listing_expects(self.phase, *reply),
    {
        match (&self.phase, reply) {
            (ListingPhase::DirExists, Reply::Found(_)) => true,
            (ListingPhase::Listing, Reply::Dir(_)) => true,
            (ListingPhase::Walk, Reply::Files(_)) => true,
            (ListingPhase::Launcher { search, .. }, _) => search.accepts(reply),
            (ListingPhase::Link { search, .. }, _) => search.accepts(reply),
            (_, _) => false,
        }
    }

    /// Starts a listing (see `listing_start`); `home` is the value of
    /// `HOME`, if it is set.
    pub fn start(request: InstalledAppsRequest, home: Option<String>) -> (r: (ListingFlow, Next<
        Vec<InstalledApp>,
    >))
        ensures
            listing_start(request, home, r.0, r.1),
            listing_wf(r.0),
            r.1 matches Next::Act(a) ==> forall|reply: Reply|
                answers(a, reply) == listing_expects(r.0.phase, reply),
    {
        let checked = validate_install_dir(request.install_dir.as_str(), opt_as_str(&home));
        let mut flow = ListingFlow {
            home,
            install_dir: String::new(),
            entries: Vec::new(),
            index: 0,
            apps: Vec::new(),
            phase: ListingPhase::DirExists,
        };
        match checked {
            Err(e) => {
                flow.phase = ListingPhase::Over;
                (flow, Next::Fail(e))
            },
            Ok(dir) => {
                let path = dir.clone();
                flow.install_dir = dir;
                (flow, Next::Act(Action::Exists { path }))
            },
        }
    }

    fn next_app_exec(&mut self, from: usize) -> (n: Next<Vec<InstalledApp>>)
        requires
            from <= old(self).entries@.len(),
        ensures
            next_app(*old(self), old(self).apps@, from as int, *final(self), n),
            listing_wf(*final(self)),
        decreases old(self).entries@.len() - from,
    {
        if from >= self.entries.len() {
            self.phase = ListingPhase::Over;
            let mut apps: Vec<InstalledApp> = Vec::new();
            core::mem::swap(&mut apps, &mut self.apps);
            return Next::Done(sort_installed_apps(apps));
        }
        if self.entries[from].is_dir {
            self.index = from;
            self.phase = ListingPhase::Walk;
            Next::Act(Action::Walk { root: self.entries[from].path.clone() })
        } else {
            self.next_app_exec(from + 1)
        }
    }

    fn link_outcome_exec(
        &mut self,
        executable: Option<String>,
        launcher: Option<String>,
        search: LinkSearch,
        m: Next<Option<String>>,
    ) -> (n: Next<Vec<InstalledApp>>)
        requires
            old(self).index < old(self).entries@.len(),
            link_search_wf(search),
            !(m is Fail),
        ensures
            link_outcome(*old(self), executable, launcher, search, m, *final(self), n),
            listing_wf(*final(self)),
    {
        match m {
            Next::Act(a) => {
                self.phase = ListingPhase::Link { executable, launcher, search };
                Next::Act(a)
            },
            Next::Done(link) => {
                let k = self.index;
                let len = self.entries.len();
                assert(k < len);
                let entry = &self.entries[k];
                let app = InstalledApp {
                    app_name: entry.name.clone(),
                    install_root: entry.path.clone(),
                    executable_path: executable,
                    desktop_entry_path: launcher,
                    path_link: link,
                };
                self.apps.push(app);
                self.next_app_exec(k + 1)
            },
            Next::Fail(_) => vstd::pervasive::unreached(),
        }
    }

    fn link_stage_exec(&mut self, executable: Option<String>, launcher: Option<String>) -> (n: Next<
        Vec<InstalledApp>,
    >)
        requires
            old(self).index < old(self).entries@.len(),
        ensures
            link_stage(*old(self), executable, launcher, *final(self), n),
            listing_wf(*final(self)),
    {
        let k = self.index;
        let (search, m) = LinkSearch::start(opt_as_str(&self.home), self.entries[k].path.as_str());
        let ghost u = search;
        let ghost mm = m;
        let ghost mid = *self;
        let n = self.link_outcome_exec(executable, launcher, search, m);
        assert(link_search_start(opt_view(mid.home), mid.entries@[mid.index as int].path@, u, mm));
        n
    }

    fn launcher_outcome_exec(
        &mut self,
        executable: Option<String>,
        search: LauncherSearch,
        m: Next<Option<String>>,
    ) -> (n: Next<Vec<InstalledApp>>)
        requires
            old(self).index < old(self).entries@.len(),
            launcher_search_wf(search),
            !(m is Fail),
        ensures
            launcher_outcome(*old(self), executable, search, m, *final(self), n),
            listing_wf(*final(self)),
    {
        match m {
            Next::Act(a) => {
                self.phase = ListingPhase::Launcher { executable, search };
                Next::Act(a)
            },
            Next::Done(launcher) => self.link_stage_exec(executable, launcher),
            Next::Fail(_) => vstd::pervasive::unreached(),
        }
    }

    fn launcher_stage_exec(&mut self, executable: Option<String>) -> (n: Next<Vec<InstalledApp>>)
        requires
            old(self).index < old(self).entries@.len(),
        ensures
            launcher_stage(*old(self), executable, *final(self), n),
            listing_wf(*final(self)),
    {
        let k = self.index;
        let (search, m) = LauncherSearch::start(opt_as_str(&self.home), self.entries[k].path.as_str());
        let ghost u = search;
        let ghost mm = m;
        let ghost mid = *self;
        let n = self.launcher_outcome_exec(executable, search, m);
        assert(launcher_search_start(opt_view(mid.home), mid.entries@[mid.index as int].path@, u, mm));
        n
    }

    fn on_walk(&mut self, files: Vec<(String, u32)>) -> (n: Next<Vec<InstalledApp>>)
        requires
            old(self).index < old(self).entries@.len(),
        ensures
            exists|executable: Option<String>|
                opt_view(executable) == first_executable(files@) && #[trigger] launcher_stage(
                    *old(self),
                    executable,
                    *final(self),
                    n,
                ),
            listing_wf(*final(self)),
    {
        let found = executable_files(&files);
        let ordered = order_executables(found);
        let executable = if ordered.len() > 0 {
            Some(ordered[0].clone())
        } else {
            None
        };
        assert(ordered@.len() > 0 ==> ordered@[0]@ == strings(ordered@)[0]);
        let ghost e = executable;
        let n = self.launcher_stage_exec(executable);
        assert(opt_view(e) == first_executable(files@));
        n
    }

    /// One step of the listing (see `listing_step`): `reply` answers the
    /// last request. Each request it makes is answered by a reply of the
    /// kind it next accepts.
    pub fn resume(&mut self, reply: Reply) -> (n: Next<Vec<InstalledApp>>)
        requires
            listing_expects(old(self).phase, reply),
            listing_wf(*old(self)),
        ensures
            listing_step(*old(self), reply, *final(self), n),
            listing_wf(*final(self)),
            n matches Next::Act(a) ==> forall|r: Reply|
                answers(a, r) == listing_expects(final(self).phase, r),
    {
        let mut phase = ListingPhase::Over;
        core::mem::swap(&mut phase, &mut self.phase);
        match phase {
            ListingPhase::DirExists => match reply {
                Reply::Found(exists) => if exists {
                    self.phase = ListingPhase::Listing;
                    Next::Act(Action::ReadDir { path: self.install_dir.clone() })
                } else {
                    Next::Done(Vec::new())
                },
                _ => vstd::pervasive::unreached(),
            },
            ListingPhase::Listing => match reply {
                Reply::Dir(Err(failure)) => Next::Fail(
                    match failure {
                        ListingFailure::Dir(d) => InstallError::ReadInstallDir(d),
                        ListingFailure::Entry(d) => InstallError::Io(IoStep::ReadInstallDirEntry, d),
                        ListingFailure::Info(d) => InstallError::Io(IoStep::ReadInstallDirEntryInfo, d),
                    },
                ),
                Reply::Dir(Ok(entries)) => {
                    self.entries = entries;
                    self.next_app_exec(0)
                },
                _ => vstd::pervasive::unreached(),
            },
            ListingPhase::Walk => match reply {
                Reply::Files(files) => self.on_walk(files),
                _ => vstd::pervasive::unreached(),
            },
            ListingPhase::Launcher { executable, search } => {
                let mut search = search;
                let ghost before = search;
                let m = search.resume(reply);
                let ghost u = search;
                let ghost mm = m;
                let n = self.launcher_outcome_exec(executable, search, m);
                assert(launcher_search_step(before, reply, u, mm));
                n
            },
            ListingPhase::Link { executable, launcher, search } => {
                let mut search = search;
                let ghost before = search;
                let m = search.resume(reply);
                let ghost u = search;
                let ghost mm = m;
                let n = self.link_outcome_exec(executable, launcher, search, m);
                assert(link_search_step(before, reply, u, mm));
                n
            },
            ListingPhase::Over => vstd::pervasive::unreached(),
        }
    }
}

} // verus!
