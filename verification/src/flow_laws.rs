//! Properties of the step machines as a whole: an installation writes only
//! under the installation root, the user's launcher directory and the
//! user's directory of commands; a removal deletes no directory but one
//! that lies under the installation directory; a preview writes only
//! under its scratch directory.
//!
//! Here "under" and "inside" are lexical (see `laws`): the directory's
//! components are a prefix of the path's components, with `.` and `..`
//! left unresolved. Where the application name is `..` (a package named
//! `...zip`), the installation root resolves to the parent of the
//! installation directory.
use vstd::prelude::*;
use crate::desktop::applications_dir;
use crate::flow::{Action, Next, Reply};
use crate::install::{icon_plan, local_bin, IconPlanView};
use crate::install_flow::{
    install_start, install_step, launcher_stage, launcher_with, link_stage, InstallFlow,
    InstallPhase, InstallResponse,
};
use crate::laws::{
    law_app_name_is_clean, law_launcher_inside_applications, law_link_inside_local_bin,
    law_named_copy_inside, law_clean_stem_is_relative,
};
use crate::names::app_name_of;
use crate::paths::{components, file_name, is_absolute, join, lemma_join_starts_with, lemma_strip_relative,
    path_starts_with, strip_prefix};
use crate::report::Report;
use crate::removal_flow::{
    files_stage, launcher_found, launcher_outcome, link_found, link_outcome, removal_step,
    RemovalFlow, RemovalPhase, UninstallResponse,
};
use crate::search::{
    first_launcher, launcher_search_step, launcher_search_wf, link_search_step, link_search_wf,
    resolved_or, LauncherPhase, LauncherSearch, LinkPhase, LinkSearch,
};
use crate::desktop::{entry_text, exec_command_text, is_launcher_file, launcher_references_root};
use crate::laws::{lacks, law_written_launcher_found};
use crate::model::PackageKind;
use crate::text::{is_white_space, occurs_at};
use crate::preview_flow::{preview_start, preview_step, PreviewFlow, PreviewPhase};
use crate::report::PreviewResponse;
use crate::copy_flow::{
    advance, bump, copy_kind, copy_step, copy_wf, current, frames_wf, remaining, settle,
    start_entry, CopyFlow, CopyFrame, CopyPhase, Settled,
};
use crate::install::{link_copy, CopyAction};

verus! {

// ---------------------------------------------------------------------------
// Copying an extracted package
// ---------------------------------------------------------------------------

/// Every path `a` writes, creates or removes lies lexically under the installation
/// root, and so does the target of every link it creates with an absolute
/// target; a copy runs nothing and removes no directory.
pub open spec fn copy_writes_within(c: CopyFlow, a: Action) -> bool {
    let root = c.destination_root@;
    match a {
        Action::CreateDir { path } => path_starts_with(path@, root),
        Action::CopyFile { to, .. } => path_starts_with(to@, root),
        Action::SetMode { path, .. } => path_starts_with(path@, root),
        Action::RemoveFile { path } => path_starts_with(path@, root),
        Action::Symlink { target, link } => path_starts_with(link@, root) && (is_absolute(target@)
            ==> path_starts_with(target@, root)),
        Action::Run { .. } => false,
        Action::WriteFile { .. } => false,
        Action::RemoveTree { .. } => false,
        _ => true,
    }
}

/// The system reports canonical paths as absolute paths, and the names of
/// directory entries as relative paths.
pub open spec fn replies_plausible(reply: Reply) -> bool {
    match reply {
        Reply::Selection(probe) => probe.canonical_root matches Some(r) ==> is_absolute(r@),
        Reply::Canonical(Ok(c)) => is_absolute(c@),
        Reply::Scanned(Ok(scan)) => names_relative(scan.entries@),
        _ => true,
    }
}

/// None of `entries` is named by an absolute path.
pub open spec fn names_relative(entries: Seq<crate::flow::EntryFacts>) -> bool {
    forall|k: int| 0 <= k < entries.len() ==> !is_absolute(#[trigger] entries[k].name@)
}

/// The directories being copied go lexically under `root`, and none of their
/// entries is named by an absolute path.
pub open spec fn frames_inside(frames: Seq<CopyFrame>, root: Seq<char>) -> bool {
    forall|i: int|
        0 <= i < frames.len() ==> path_starts_with(#[trigger] frames[i].destination@, root)
            && names_relative(frames[i].entries@)
}

/// What a copy keeps: its directories go lexically under the installation root,
/// the source root is absolute once resolved, and the paths it has
/// planned to write lie lexically under the installation root.
pub open spec fn copy_safe(c: CopyFlow) -> bool {
    let root = c.destination_root@;
    &&& frames_inside(c.frames@, root)
    &&& match c.phase {
        CopyPhase::Root => true,
        CopyPhase::Over => true,
        CopyPhase::MakeDir { destination, .. } => is_absolute(c.source_root@) && path_starts_with(
            destination@,
            root,
        ),
        CopyPhase::Scan { destination } => is_absolute(c.source_root@) && path_starts_with(
            destination@,
            root,
        ),
        CopyPhase::Copying { to } => is_absolute(c.source_root@) && path_starts_with(to@, root),
        CopyPhase::Moding { to } => is_absolute(c.source_root@) && path_starts_with(to@, root),
        CopyPhase::LinkTarget { to } => is_absolute(c.source_root@) && path_starts_with(to@, root),
        CopyPhase::Resolving { to, .. } => is_absolute(c.source_root@) && path_starts_with(to@, root),
        CopyPhase::Present { to, installed } => {
            &&& is_absolute(c.source_root@)
            &&& path_starts_with(to@, root)
            &&& is_absolute(installed@) ==> path_starts_with(installed@, root)
        },
        CopyPhase::Clearing { to, installed } => {
            &&& is_absolute(c.source_root@)
            &&& path_starts_with(to@, root)
            &&& is_absolute(installed@) ==> path_starts_with(installed@, root)
        },
        CopyPhase::Linking => is_absolute(c.source_root@),
    }
}

/// Passing over entries and leaving finished directories keeps the
/// directories that remain, each with its destination and entries.
proof fn lemma_settle_keeps(frames: Seq<CopyFrame>)
    requires
        frames_wf(frames),
    ensures
        settle(frames).0.len() <= frames.len(),
        forall|i: int|
            0 <= i < settle(frames).0.len() ==> (#[trigger] settle(frames).0[i]).destination
                == frames[i].destination && settle(frames).0[i].entries == frames[i].entries,
        settle(frames).1 is Pending ==> settle(frames).0.len() > 0 && settle(frames).0.last().index
            < settle(frames).0.last().entries@.len(),
    decreases frames.len(), remaining(frames),
{
    if frames.len() > 0 {
        let top = frames.last();
        if top.index < top.entries@.len() {
            if copy_kind(top.entries@[top.index as int]) == CopyAction::Skip {
                let b = bump(frames);
                assert(top.entries.len() == top.entries@.len());
                assert(b.len() == frames.len());
                assert(b.last().index == top.index + 1);
                assert(frames_wf(b)) by {
                    assert forall|i: int| 0 <= i < b.len() implies #[trigger] b[i].index
                        <= b[i].entries@.len() && (i < b.len() - 1 ==> b[i].index
                        < b[i].entries@.len()) by {
                        if i < b.len() - 1 {
                            assert(b[i] == frames[i]);
                        }
                    }
                }
                lemma_settle_keeps(b);
                assert forall|i: int| 0 <= i < b.len() implies b[i].destination == frames[i].destination
                    && b[i].entries == frames[i].entries by {
                    if i < b.len() - 1 {
                        assert(b[i] == frames[i]);
                    }
                }
            }
        } else if top.failure is None {
            let rest = frames.drop_last();
            if rest.len() > 0 {
                let b = bump(rest);
                assert(rest.last() == frames[frames.len() - 2]);
                assert(b.len() == rest.len());
                assert(rest.last().entries.len() == rest.last().entries@.len());
                assert(frames_wf(b)) by {
                    assert forall|i: int| 0 <= i < b.len() implies #[trigger] b[i].index
                        <= b[i].entries@.len() && (i < b.len() - 1 ==> b[i].index
                        < b[i].entries@.len()) by {
                        if i < b.len() - 1 {
                            assert(b[i] == frames[i]);
                        } else {
                            assert(b[i].entries == frames[i].entries);
                            assert(b[i].index == frames[i].index + 1);
                        }
                    }
                }
                lemma_settle_keeps(b);
                assert forall|i: int| 0 <= i < b.len() implies b[i].destination == frames[i].destination
                    && b[i].entries == frames[i].entries by {
                    if i < b.len() - 1 {
                        assert(b[i] == frames[i]);
                    }
                }
            }
        }
    }
}

proof fn lemma_frames_inside_settle(frames: Seq<CopyFrame>, root: Seq<char>)
    requires
        frames_wf(frames),
        frames_inside(frames, root),
    ensures
        frames_inside(settle(frames).0, root),
{
    lemma_settle_keeps(frames);
    let fs = settle(frames).0;
    assert forall|i: int| 0 <= i < fs.len() implies path_starts_with(#[trigger] fs[i].destination@, root)
        && names_relative(fs[i].entries@) by {
        assert(fs[i].destination == frames[i].destination);
        assert(fs[i].entries == frames[i].entries);
    }
}

proof fn lemma_frames_inside_bump(frames: Seq<CopyFrame>, root: Seq<char>)
    requires
        frames.len() > 0,
        frames_inside(frames, root),
    ensures
        frames_inside(bump(frames), root),
{
    let b = bump(frames);
    assert forall|i: int| 0 <= i < b.len() implies path_starts_with(#[trigger] b[i].destination@, root)
        && names_relative(b[i].entries@) by {
        if i < b.len() - 1 {
            assert(b[i] == frames[i]);
        } else {
            assert(b[i].destination == frames[i].destination);
            assert(b[i].entries == frames[i].entries);
            assert(path_starts_with(frames[i].destination@, root));
            assert(names_relative(frames[i].entries@));
        }
    }
}

/// The copy of the next entry writes lexically under the installation root.
proof fn lemma_copy_advance(s: CopyFlow, frames: Seq<CopyFrame>, t: CopyFlow, n: Next<()>)
    requires
        frames_wf(frames),
        frames_inside(frames, s.destination_root@),
        is_absolute(s.source_root@),
        advance(s, frames, t, n),
    ensures
        copy_safe(t),
        n matches Next::Act(a) ==> copy_writes_within(t, a),
{
    lemma_frames_inside_settle(frames, s.destination_root@);
    lemma_settle_keeps(frames);
    let (fs, r) = settle(frames);
    if r is Pending {
        let top = fs.last();
        let e = current(fs);
        assert(fs[fs.len() - 1] == top);
        assert(names_relative(top.entries@));
        assert(!is_absolute(top.entries@[top.index as int].name@));
        lemma_join_starts_with(top.destination@, e.name@);
        lemma_starts_with_trans(join(top.destination@, e.name@), top.destination@, s.destination_root@);
    }
}

/// A copied regular file keeps its permission bits: when a step of the
/// copy asks to copy `from` to `to`, the entry being copied is a regular
/// file (neither a link nor a directory) at `from`, and once that copy
/// succeeds, the next request sets on `to` exactly the permission bits
/// reported for that entry.
pub proof fn law_copied_file_keeps_mode(
    s: CopyFlow,
    reply: Reply,
    t: CopyFlow,
    from: String,
    to: String,
    u: CopyFlow,
    m: Next<()>,
)
    requires
        copy_step(s, reply, t, Next::Act(Action::CopyFile { from, to })),
        copy_step(t, Reply::Status(Ok(())), u, m),
    ensures
        ({
            let top = t.frames@.last();
            let e = top.entries@[top.index as int];
            &&& e.path == from
            &&& e.is_file && !e.is_dir && !e.is_symlink
            &&& m == Next::<()>::Act(Action::SetMode { path: to, mode: e.mode })
        }),
{
    let n = Next::<()>::Act(Action::CopyFile { from, to });
    let frames = s.frames@;
    match (s.phase, reply) {
        (CopyPhase::Scan { destination }, Reply::Scanned(Ok(scan))) => {
            let fs = frames.push(
                CopyFrame { destination, entries: scan.entries, failure: scan.failure, index: 0 },
            );
            assert(start_entry(s, settle(fs).0, t, n));
        },
        (CopyPhase::Moding { .. }, Reply::Status(Ok(_))) => {
            assert(start_entry(s, settle(bump(frames)).0, t, n));
        },
        (CopyPhase::Linking, Reply::Status(Ok(_))) => {
            assert(start_entry(s, settle(bump(frames)).0, t, n));
        },
        _ => {},
    }
}

/// A copy that starts is safe and asks only to read.
pub proof fn law_copy_start(source: Seq<char>, destination: Seq<char>, t: CopyFlow, n: Next<()>)
    requires
        crate::copy_flow::copy_start(source, destination, t, n),
    ensures
        copy_safe(t),
        n matches Next::Act(a) ==> copy_writes_within(t, a),
{
}

/// Each step of the copy of an extracted package keeps it safe, and
/// every request it makes writes only lexically under the installation root; a
/// link it creates with an absolute target points lexically under the installation
/// root too. This holds as long as the system reports canonical paths as
/// absolute paths and names entries by relative paths.
pub proof fn law_copy_writes_inside(s: CopyFlow, reply: Reply, t: CopyFlow, n: Next<()>)
    requires
        copy_wf(s),
        copy_safe(s),
        replies_plausible(reply),
        copy_step(s, reply, t, n),
    ensures
        copy_safe(t),
        n matches Next::Act(a) ==> copy_writes_within(t, a),
{
    let root = s.destination_root@;
    match (s.phase, reply) {
        (CopyPhase::Root, Reply::Canonical(Ok(c))) => {
            lemma_starts_with_self(root);
        },
        (CopyPhase::Scan { destination }, Reply::Scanned(Ok(scan))) => {
            let frames = s.frames@.push(
                CopyFrame { destination, entries: scan.entries, failure: scan.failure, index: 0 },
            );
            assert(frames_wf(frames)) by {
                assert forall|i: int| 0 <= i < frames.len() implies #[trigger] frames[i].index
                    <= frames[i].entries@.len() && (i < frames.len() - 1 ==> frames[i].index
                    < frames[i].entries@.len()) by {
                    if i < frames.len() - 1 {
                        assert(frames[i] == s.frames@[i]);
                    }
                }
            }
            assert(frames_inside(frames, root)) by {
                assert forall|i: int| 0 <= i < frames.len() implies path_starts_with(
                    #[trigger] frames[i].destination@,
                    root,
                ) && names_relative(frames[i].entries@) by {
                    if i < frames.len() - 1 {
                        assert(frames[i] == s.frames@[i]);
                    }
                }
            }
            lemma_copy_advance(s, frames, t, n);
        },
        (CopyPhase::Moding { .. }, Reply::Status(Ok(_))) => {
            let b = bump(s.frames@);
            assert(frames_wf(b)) by {
                assert forall|i: int| 0 <= i < b.len() implies #[trigger] b[i].index
                    <= b[i].entries@.len() && (i < b.len() - 1 ==> b[i].index
                    < b[i].entries@.len()) by {
                    if i < b.len() - 1 {
                        assert(b[i] == s.frames@[i]);
                    }
                }
            }
            lemma_frames_inside_bump(s.frames@, root);
            lemma_copy_advance(s, b, t, n);
        },
        (CopyPhase::Linking, Reply::Status(Ok(_))) => {
            let b = bump(s.frames@);
            assert(frames_wf(b)) by {
                assert forall|i: int| 0 <= i < b.len() implies #[trigger] b[i].index
                    <= b[i].entries@.len() && (i < b.len() - 1 ==> b[i].index
                    < b[i].entries@.len()) by {
                    if i < b.len() - 1 {
                        assert(b[i] == s.frames@[i]);
                    }
                }
            }
            lemma_frames_inside_bump(s.frames@, root);
            lemma_copy_advance(s, b, t, n);
        },
        (CopyPhase::Resolving { to, target }, Reply::Canonical(r)) => {
            crate::laws::law_copied_link_inside(s.source_root@, root, target@, r);
        },
        _ => {},
    }
}

// ---------------------------------------------------------------------------
// Installation
// ---------------------------------------------------------------------------

/// A path an installation may write: lexically under the installation root, or,
/// with a home directory, lexically under the user's launcher directory or
/// directory of commands.
pub open spec fn install_may_write(s: InstallFlow, path: Seq<char>) -> bool {
    ||| path_starts_with(path, s.install_root@)
    ||| (s.home matches Some(h) && (path_starts_with(path, applications_dir(h@)) || path_starts_with(
        path,
        local_bin(h@),
    )))
}

/// Every path `a` writes, creates or removes is one the installation may
/// write; an installation runs no command.
pub open spec fn install_writes_within(s: InstallFlow, a: Action) -> bool {
    match a {
        Action::CreateDir { path } => install_may_write(s, path@),
        Action::CopyFile { to, .. } => install_may_write(s, to@),
        Action::SetMode { path, .. } => install_may_write(s, path@),
        Action::WriteFile { path, .. } => install_may_write(s, path@),
        Action::RemoveFile { path } => install_may_write(s, path@),
        Action::RemoveTree { path } => install_may_write(s, path@),
        Action::Symlink { target, link } => install_may_write(s, link@) && (is_absolute(target@)
            ==> install_may_write(s, target@)),
        Action::Run { .. } => false,
        _ => true,
    }
}

/// What an installation keeps once it has named the application: its root
/// is the application's name under the installation directory, and what
/// it has planned to write lies where it may write.
pub open spec fn install_wf(s: InstallFlow) -> bool {
    match s.phase {
        InstallPhase::Source => true,
        InstallPhase::Over => true,
        _ => {
            &&& s.app_name@ == app_name_of(s.request.source_path@)
            &&& s.install_root@ == join(s.install_dir@, s.app_name@)
            &&& match s.phase {
                InstallPhase::InstallRoot => true,
                InstallPhase::Selection { .. } => true,
                InstallPhase::Tree { source_root, copy, .. } => {
                    &&& is_absolute(source_root@)
                    &&& copy.destination_root@ == s.install_root@
                    &&& copy_wf(copy)
                    &&& copy_safe(copy)
                },
                InstallPhase::IconDir { copy, .. } => {
                    &&& path_starts_with(s.executable@, s.install_root@)
                    &&& path_starts_with(copy.directory@, s.install_root@)
                    &&& path_starts_with(copy.destination@, s.install_root@)
                },
                InstallPhase::IconCopy { copy } => {
                    &&& path_starts_with(s.executable@, s.install_root@)
                    &&& path_starts_with(copy.destination@, s.install_root@)
                },
                InstallPhase::LauncherDir { plan } => {
                    &&& path_starts_with(s.executable@, s.install_root@)
                    &&& s.home matches Some(h)
                    &&& plan.directory@ == applications_dir(h@)
                    &&& path_starts_with(plan.path@, applications_dir(h@))
                },
                InstallPhase::LauncherWrite { plan } => {
                    &&& path_starts_with(s.executable@, s.install_root@)
                    &&& s.home matches Some(h)
                    &&& path_starts_with(plan.path@, applications_dir(h@))
                },
                InstallPhase::BinDir { plan } => {
                    &&& path_starts_with(s.executable@, s.install_root@)
                    &&& s.home matches Some(h)
                    &&& plan.directory@ == local_bin(h@)
                    &&& path_starts_with(plan.link_path@, local_bin(h@))
                },
                InstallPhase::LinkExists { plan } => {
                    &&& path_starts_with(s.executable@, s.install_root@)
                    &&& s.home matches Some(h)
                    &&& path_starts_with(plan.link_path@, local_bin(h@))
                },
                InstallPhase::LinkRemoval { plan } => {
                    &&& path_starts_with(s.executable@, s.install_root@)
                    &&& s.home matches Some(h)
                    &&& path_starts_with(plan.link_path@, local_bin(h@))
                },
                InstallPhase::Link { plan } => {
                    &&& path_starts_with(s.executable@, s.install_root@)
                    &&& s.home matches Some(h)
                    &&& path_starts_with(plan.link_path@, local_bin(h@))
                },
                _ => path_starts_with(s.executable@, s.install_root@),
            }
        },
    }
}

/// Every path is a prefix of itself.
proof fn lemma_starts_with_self(p: Seq<char>)
    ensures
        path_starts_with(p, p),
{
    assert(components(p).take(components(p).len() as int) =~= components(p));
}

/// A path lexically under a path lexically under `c` lies lexically under `c`.
proof fn lemma_starts_with_trans(a: Seq<char>, b: Seq<char>, c: Seq<char>)
    requires
        path_starts_with(a, b),
        path_starts_with(b, c),
    ensures
        path_starts_with(a, c),
{
    let ca = components(a);
    let cb = components(b);
    let cc = components(c);
    assert(ca.take(cc.len() as int) =~= cb.take(cc.len() as int));
}

/// The installation root lies lexically under the installation directory.
pub proof fn law_install_root_inside(s: InstallFlow)
    requires
        install_wf(s),
        !(s.phase is Source),
        !(s.phase is Over),
    ensures
        path_starts_with(s.install_root@, s.install_dir@),
{
    law_app_name_is_clean(file_name(s.request.source_path@));
    law_clean_stem_is_relative(s.app_name@);
    lemma_join_starts_with(s.install_dir@, s.app_name@);
}

proof fn lemma_launcher_with(
    s: InstallFlow,
    reports: Seq<Report>,
    icon: Option<Seq<char>>,
    t: InstallFlow,
    n: Next<InstallResponse>,
)
    requires
        s.app_name@ == app_name_of(s.request.source_path@),
        s.install_root@ == join(s.install_dir@, s.app_name@),
        path_starts_with(s.executable@, s.install_root@),
        launcher_with(s, reports, icon, t, n),
    ensures
        install_wf(t) || t.phase is Over,
        n matches Next::Act(a) ==> install_writes_within(t, a),
{
    if let Some(h) = s.home {
        if let InstallPhase::LauncherDir { plan } = t.phase {
            let display = crate::desktop::display_name(s.request.desktop_config.name@, s.app_name@);
            law_launcher_inside_applications(h@, display);
            lemma_starts_with_self(applications_dir(h@));
        }
    }
}

proof fn lemma_link_stage(s: InstallFlow, reports: Seq<Report>, t: InstallFlow, n: Next<InstallResponse>)
    requires
        s.app_name@ == app_name_of(s.request.source_path@),
        s.install_root@ == join(s.install_dir@, s.app_name@),
        path_starts_with(s.executable@, s.install_root@),
        link_stage(s, reports, t, n),
    ensures
        install_wf(t) || t.phase is Over,
        n matches Next::Act(a) ==> install_writes_within(t, a),
{
    if s.request.add_to_path {
        if let Some(h) = s.home {
            law_link_inside_local_bin(h@, s.app_name@);
            lemma_starts_with_self(local_bin(h@));
        }
    }
}

proof fn lemma_launcher_stage(s: InstallFlow, reports: Seq<Report>, t: InstallFlow, n: Next<InstallResponse>)
    requires
        s.app_name@ == app_name_of(s.request.source_path@),
        s.install_root@ == join(s.install_dir@, s.app_name@),
        path_starts_with(s.executable@, s.install_root@),
        launcher_stage(s, reports, t, n),
    ensures
        install_wf(t) || t.phase is Over,
        n matches Next::Act(a) ==> install_writes_within(t, a),
{
    if !s.request.create_desktop_entry {
        lemma_link_stage(s, reports.push(Report::LauncherSkipped), t, n);
    } else {
        match s.request.desktop_config.icon_path {
            None => lemma_launcher_with(s, reports, None, t, n),
            Some(raw) => if crate::text::trim(raw@).len() == 0 {
                lemma_launcher_with(s, reports, None, t, n);
            },
        }
    }
}

/// An installation that starts is in a well-formed state, and what it
/// first asks for writes nothing.
pub proof fn law_install_start(
    request: crate::install_flow::InstallRequest,
    home: Option<String>,
    t: InstallFlow,
    n: Next<InstallResponse>,
)
    requires
        install_start(request, home, t, n),
    ensures
        install_wf(t),
        n matches Next::Act(a) ==> install_writes_within(t, a),
{
}

/// Each step of an installation keeps it well formed, and every request
/// it makes writes only lexically under the installation root, the user's launcher
/// directory or the user's directory of commands, provided the system
/// reports canonical paths as absolute paths.
pub proof fn law_install_writes_inside(s: InstallFlow, reply: Reply, t: InstallFlow, n: Next<InstallResponse>)
    requires
        install_wf(s),
        replies_plausible(reply),
        install_step(s, reply, t, n),
    ensures
        install_wf(t),
        n matches Next::Act(a) ==> install_writes_within(t, a),
{
    let kind = s.request.package_kind;
    match (s.phase, reply) {
        (InstallPhase::Source, Reply::Facts(m)) => {
            if !(t.phase is Over) {
                lemma_starts_with_self(t.install_root@);
            }
        },
        (InstallPhase::InstallRoot, Reply::Status(Ok(_))) => {
            if t.phase is AppImageCopy {
                law_named_copy_inside(s.request.source_path@, s.install_root@);
            }
        },
        (InstallPhase::AppImageCopy, Reply::Status(Ok(_))) => {},
        (InstallPhase::Selection { preview_root, selected }, Reply::Selection(probe)) => {
            lemma_starts_with_self(s.install_root@);
        },
        (InstallPhase::Tree { source_root, selected, copy }, _) => {
            let s0 = InstallFlow { phase: InstallPhase::Over, ..s };
            let (u, m) = choose|u: CopyFlow, m: Next<()>|
                #[trigger] copy_step(copy, reply, u, m) && copy_wf(u)
                    && crate::install_flow::tree_outcome(s0, source_root, selected, u, m, t, n);
            law_copy_writes_inside(copy, reply, u, m);
            if m is Done {
                if let Some(rel) = strip_prefix(selected@, source_root@) {
                    assert(components(source_root@).len() > 0);
                    lemma_strip_relative(selected@, source_root@);
                    lemma_join_starts_with(s.install_root@, rel);
                }
            }
        },
        (InstallPhase::SetMode, Reply::Status(Ok(_))) => {
            lemma_launcher_stage(
                s,
                s.reports@.push(
                    if kind == crate::model::PackageKind::AppImage {
                        Report::MadeExecutable
                    } else {
                        Report::EntryChosen { path: s.executable }
                    },
                ),
                t,
                n,
            );
        },
        (InstallPhase::IconProbe, Reply::Icon(probe)) => {
            match icon_plan(
                crate::paths::opt_view(s.request.desktop_config.icon_path),
                crate::paths::opt_view(s.request.preview_root),
                s.install_root@,
                kind,
                probe,
            ) {
                Ok(IconPlanView::NoIcon) => lemma_launcher_with(s, s.reports@, None, t, n),
                Ok(IconPlanView::CopyIntoInstallRoot(ci)) => {
                    if let Some(f) = file_name(ci) {
                        let icons = join(s.install_root@, "icons"@);
                        reveal_strlit("icons");
                        assert("icons"@[0] == 'i');
                        lemma_join_starts_with(s.install_root@, "icons"@);
                        law_named_copy_inside(ci, icons);
                        lemma_starts_with_trans(join(icons, f), icons, s.install_root@);
                    }
                },
                _ => {},
            }
        },
        (InstallPhase::IconExists { path }, Reply::Found(exists)) => {
            if exists {
                lemma_launcher_with(s, s.reports@, Some(path@), t, n);
            }
        },
        (InstallPhase::LauncherWrite { plan }, Reply::Status(Ok(_))) => {
            lemma_link_stage(
                InstallFlow { desktop_entry_path: Some(plan.path), ..s },
                s.reports@.push(Report::LauncherCreated { path: plan.path }),
                t,
                n,
            );
        },
        _ => {},
    }
}

// ---------------------------------------------------------------------------
// Removal
// ---------------------------------------------------------------------------

/// What a removal keeps once it has resolved the application's directory:
/// that directory lies lexically under the resolved installation directory.
pub open spec fn removal_safe(s: RemovalFlow) -> bool {
    match s.phase {
        RemovalPhase::InstallDir => true,
        RemovalPhase::InstallRoot => true,
        RemovalPhase::Over => true,
        _ => path_starts_with(s.canonical_root@, s.canonical_dir@),
    }
}

/// `t` has the resolved directories of `s`, and a directory removal it
/// asks for is of the resolved application directory.
pub open spec fn removal_keeps(s: RemovalFlow, t: RemovalFlow, n: Next<UninstallResponse>) -> bool {
    &&& t.canonical_dir == s.canonical_dir
    &&& t.canonical_root == s.canonical_root
    &&& n matches Next::Act(Action::RemoveTree { path }) ==> path == s.canonical_root
}

proof fn lemma_removal_files_stage(s: RemovalFlow, reports: Seq<Report>, t: RemovalFlow, n: Next<UninstallResponse>)
    requires
        files_stage(s, reports, t, n),
    ensures
        removal_keeps(s, t, n),
{
}

proof fn lemma_removal_link_found(
    s: RemovalFlow,
    reports: Seq<Report>,
    found: Option<String>,
    t: RemovalFlow,
    n: Next<UninstallResponse>,
)
    requires
        link_found(s, reports, found, t, n),
    ensures
        removal_keeps(s, t, n),
{
    if found is None {
        lemma_removal_files_stage(s, reports.push(Report::LinkNotFound), t, n);
    }
}

proof fn lemma_removal_link_outcome(
    s: RemovalFlow,
    reports: Seq<Report>,
    u: LinkSearch,
    m: Next<Option<String>>,
    t: RemovalFlow,
    n: Next<UninstallResponse>,
)
    requires
        link_outcome(s, reports, u, m, t, n),
        m matches Next::Act(a) ==> !(a is RemoveTree),
    ensures
        removal_keeps(s, t, n),
{
    if let Next::Done(found) = m {
        lemma_removal_link_found(s, reports, found, t, n);
    }
}

proof fn lemma_removal_link_stage(s: RemovalFlow, reports: Seq<Report>, t: RemovalFlow, n: Next<UninstallResponse>)
    requires
        crate::removal_flow::link_stage(s, reports, t, n),
    ensures
        removal_keeps(s, t, n),
{
    let (u, m) = choose|u: LinkSearch, m: Next<Option<String>>|
        #[trigger] crate::search::link_search_start(crate::paths::opt_view(s.home), s.canonical_root@, u, m)
            && crate::search::link_search_wf(u) && link_outcome(s, reports, u, m, t, n);
    lemma_searches_read();
    lemma_removal_link_outcome(s, reports, u, m, t, n);
}

proof fn lemma_removal_launcher_found(s: RemovalFlow, found: Option<String>, t: RemovalFlow, n: Next<UninstallResponse>)
    requires
        launcher_found(s, found, t, n),
    ensures
        removal_keeps(s, t, n),
{
    if found is None {
        lemma_removal_link_stage(s, s.reports@.push(Report::LauncherNotFound), t, n);
    }
}

proof fn lemma_removal_launcher_outcome(
    s: RemovalFlow,
    u: LauncherSearch,
    m: Next<Option<String>>,
    t: RemovalFlow,
    n: Next<UninstallResponse>,
)
    requires
        launcher_outcome(s, u, m, t, n),
        m matches Next::Act(a) ==> !(a is RemoveTree),
    ensures
        removal_keeps(s, t, n),
{
    if let Next::Done(found) = m {
        lemma_removal_launcher_found(s, found, t, n);
    }
}

/// A search only reads.
proof fn lemma_searches_read()
    ensures
        forall|s: LauncherSearch, reply: Reply, u: LauncherSearch, m: Next<Option<String>>|
            #[trigger] crate::search::launcher_search_step(s, reply, u, m) ==> (m matches Next::Act(
                a,
            ) ==> !(a is RemoveTree)),
        forall|h: Option<Seq<char>>, root: Seq<char>, u: LauncherSearch, m: Next<Option<String>>|
            #[trigger] crate::search::launcher_search_start(h, root, u, m) ==> (m matches Next::Act(
                a,
            ) ==> !(a is RemoveTree)),
        forall|s: LinkSearch, reply: Reply, u: LinkSearch, m: Next<Option<String>>|
            #[trigger] crate::search::link_search_step(s, reply, u, m) ==> (m matches Next::Act(a)
                ==> !(a is RemoveTree)),
        forall|h: Option<Seq<char>>, root: Seq<char>, u: LinkSearch, m: Next<Option<String>>|
            #[trigger] crate::search::link_search_start(h, root, u, m) ==> (m matches Next::Act(a)
                ==> !(a is RemoveTree)),
{
}

/// Each step of a removal keeps it safe, and the only directory it asks
/// to remove is the resolved application directory, which lies lexically under the
/// resolved installation directory.
pub proof fn law_removal_deletes_inside(s: RemovalFlow, reply: Reply, t: RemovalFlow, n: Next<UninstallResponse>)
    requires
        removal_safe(s),
        removal_step(s, reply, t, n),
    ensures
        removal_safe(t),
        n matches Next::Act(Action::RemoveTree { path }) ==> path == t.canonical_root
            && path_starts_with(path@, t.canonical_dir@),
{
    let s0 = RemovalFlow { phase: RemovalPhase::Over, ..s };
    lemma_searches_read();
    match (s.phase, reply) {
        (RemovalPhase::InstallRoot, Reply::Canonical(r)) => {
            let root = match r {
                Ok(root) => Some(root@),
                Err(_) => None,
            };
            crate::laws::law_removal_inside(Ok(s.canonical_dir), root);
            if let Ok(root) = crate::install::removal_check(Ok(s.canonical_dir), root) {
                let s1 = RemovalFlow { canonical_root: t.canonical_root, ..s0 };
                let (u, m) = choose|u: LauncherSearch, m: Next<Option<String>>|
                    #[trigger] crate::search::launcher_search_start(
                        crate::paths::opt_view(s1.home),
                        s1.canonical_root@,
                        u,
                        m,
                    ) && crate::search::launcher_search_wf(u) && launcher_outcome(s1, u, m, t, n);
                lemma_removal_launcher_outcome(s1, u, m, t, n);
            }
        },
        (RemovalPhase::Launcher { search }, _) => {
            let (u, m) = choose|u: LauncherSearch, m: Next<Option<String>>|
                #[trigger] crate::search::launcher_search_step(search, reply, u, m)
                    && crate::search::launcher_search_wf(u) && launcher_outcome(s0, u, m, t, n);
            lemma_removal_launcher_outcome(s0, u, m, t, n);
        },
        (RemovalPhase::LauncherRemoval { path }, Reply::Status(Ok(_))) => {
            lemma_removal_link_stage(s0, s.reports@.push(Report::LauncherRemoved { path }), t, n);
        },
        (RemovalPhase::Link { search }, _) => {
            let (u, m) = choose|u: LinkSearch, m: Next<Option<String>>|
                #[trigger] crate::search::link_search_step(search, reply, u, m)
                    && crate::search::link_search_wf(u) && link_outcome(s0, s.reports@, u, m, t, n);
            lemma_removal_link_outcome(s0, s.reports@, u, m, t, n);
        },
        (RemovalPhase::LinkRemoval { path }, Reply::Status(Ok(_))) => {
            lemma_removal_files_stage(s0, s.reports@.push(Report::LinkRemoved { path }), t, n);
        },
        _ => {},
    }
}

// ---------------------------------------------------------------------------
// Preview
// ---------------------------------------------------------------------------

/// Every path `a` writes or creates lies lexically under the system's temporary
/// directory, and so does the directory a command it runs unpacks into;
/// a preview writes, removes and links nothing else.
pub open spec fn preview_writes_within(s: PreviewFlow, a: Action) -> bool {
    match a {
        Action::CreateDir { path } => path_starts_with(path@, s.temp_dir@),
        Action::CopyFile { to, .. } => path_starts_with(to@, s.temp_dir@),
        Action::SetMode { path, .. } => path_starts_with(path@, s.temp_dir@),
        Action::Run { command, directory, .. } => match directory {
            Some(d) => path_starts_with(d@, s.temp_dir@),
            None => command.args@.len() == 4 && path_starts_with(command.args@[3]@, s.temp_dir@),
        },
        Action::WriteFile { .. } => false,
        Action::RemoveFile { .. } => false,
        Action::RemoveTree { .. } => false,
        Action::Symlink { .. } => false,
        _ => true,
    }
}

/// What a preview keeps once it has named its scratch directory: that
/// directory, and the places an AppImage is copied to and unpacks into,
/// lie lexically under the system's temporary directory.
pub open spec fn preview_inside(s: PreviewFlow) -> bool {
    match s.phase {
        PreviewPhase::Source => true,
        PreviewPhase::Clock => true,
        PreviewPhase::Over => true,
        PreviewPhase::ExtractorCopy { extraction } => extraction_inside(s, extraction),
        PreviewPhase::ExtractorMode { extraction } => extraction_inside(s, extraction),
        PreviewPhase::ExtractorSetMode { extraction } => extraction_inside(s, extraction),
        PreviewPhase::AppImageRun { extraction } => extraction_inside(s, extraction),
        PreviewPhase::Squashfs { extraction } => extraction_inside(s, extraction),
        _ => path_starts_with(s.preview_root@, s.temp_dir@),
    }
}

/// The scratch directory, the AppImage's copy and the directory it
/// unpacks into lie lexically under the temporary directory.
pub open spec fn extraction_inside(s: PreviewFlow, x: crate::install::AppImageExtraction) -> bool {
    &&& path_starts_with(s.preview_root@, s.temp_dir@)
    &&& path_starts_with(x.extractor_path@, s.temp_dir@)
    &&& path_starts_with(x.extracted_root@, s.temp_dir@)
}

/// A preview that starts asks only to read.
pub proof fn law_preview_start(
    request: crate::preview_flow::PreviewRequest,
    temp_dir: String,
    pid: u32,
    t: PreviewFlow,
    n: Next<PreviewResponse>,
)
    requires
        preview_start(request, temp_dir, pid, t, n),
    ensures
        preview_inside(t),
        n matches Next::Act(a) ==> preview_writes_within(t, a),
{
}

/// Each step of a preview keeps its scratch directory lexically under the system's
/// temporary directory, and every request it makes writes only there.
pub proof fn law_preview_writes_inside(s: PreviewFlow, reply: Reply, t: PreviewFlow, n: Next<PreviewResponse>)
    requires
        preview_inside(s),
        preview_step(s, reply, t, n),
    ensures
        preview_inside(t),
        n matches Next::Act(a) ==> preview_writes_within(t, a),
{
    match (s.phase, reply) {
        (PreviewPhase::Clock, Reply::Clock(Ok(millis))) => {
            crate::laws::law_preview_dir_inside(
                s.temp_dir@,
                s.app_name@,
                s.pid as nat,
                millis as nat,
            );
        },
        (PreviewPhase::PreviewDir, Reply::Status(Ok(_))) => {
            if let Some(f) = file_name(s.request.source_path@) {
                if s.request.package_kind == crate::model::PackageKind::AppImage {
                    law_named_copy_inside(s.request.source_path@, s.preview_root@);
                    lemma_starts_with_trans(join(s.preview_root@, f), s.preview_root@, s.temp_dir@);
                    reveal_strlit("squashfs-root");
                    assert("squashfs-root"@[0] == 's');
                    lemma_join_starts_with(s.preview_root@, "squashfs-root"@);
                    lemma_starts_with_trans(
                        join(s.preview_root@, "squashfs-root"@),
                        s.preview_root@,
                        s.temp_dir@,
                    );
                }
            }
            if let Next::Act(Action::Run { command, .. }) = n {
                assert(crate::install::arg_views(command.args@).len() == command.args@.len());
                assert(crate::install::arg_views(command.args@)[3] == command.args@[3]@);
            }
        },
        _ => {},
    }
}

// ---------------------------------------------------------------------------
// What an installation leaves outside its directory is found again
// ---------------------------------------------------------------------------

/// From index `i` on, the first launcher file comes no later than the
/// launcher file at `k`.
pub proof fn lemma_first_launcher_reaches(entries: Seq<String>, i: int, k: int)
    requires
        0 <= i <= k < entries.len(),
        is_launcher_file(entries[k]@),
    ensures
        first_launcher(entries, i) matches Some(j) && i <= j <= k,
    decreases k - i,
{
    if !is_launcher_file(entries[i]@) {
        lemma_first_launcher_reaches(entries, i + 1, k);
    }
}

/// The launcher at index `k` of a launcher search is still ahead: it is
/// listed (or about to be), and the search has not read past it.
pub open spec fn launcher_ahead(s: LauncherSearch, reply: Reply, k: int) -> bool {
    &&& s.phase != LauncherPhase::Over
    &&& s.phase == LauncherPhase::Listing ==> (reply matches Reply::Entries(Some(es)) && 0 <= k
        < es@.len() && is_launcher_file(es@[k]@))
    &&& s.phase != LauncherPhase::Listing ==> 0 <= k < s.entries@.len() && is_launcher_file(
        s.entries@[k]@,
    )
    &&& s.phase == LauncherPhase::Reading ==> s.index <= k
}

/// The text of the launcher that an installation wrote, for an executable
/// whose path holds `root` from index `i` on (see
/// `laws::law_written_launcher_found` for the conditions on the root).
pub open spec fn written_launcher(
    text: Seq<char>,
    display: Seq<char>,
    exe: Seq<char>,
    kind: PackageKind,
    terminal: bool,
    categories: Seq<char>,
    icon: Option<Seq<char>>,
    root: Seq<char>,
    i: int,
) -> bool {
    &&& text == entry_text(display, exec_command_text(exe, kind), terminal, categories, icon)
    &&& lacks(root, '\\')
    &&& occurs_at(exe, root, i)
    &&& lacks(exe.take(i + root.len()), '\n')
    &&& lacks(exe, '\n') || root.len() == 0 || !is_white_space(root.last())
}

/// A launcher search does not pass over the launcher an installation
/// wrote: while that launcher is listed and ahead, and reading it gives
/// back the text written for an executable under the canonical root, no
/// step ends the search with nothing found, and the launcher stays ahead
/// until the search ends with a launcher found.
pub proof fn law_written_launcher_not_passed_over(
    s: LauncherSearch,
    reply: Reply,
    t: LauncherSearch,
    n: Next<Option<String>>,
    k: int,
    display: Seq<char>,
    exe: Seq<char>,
    kind: PackageKind,
    terminal: bool,
    categories: Seq<char>,
    icon: Option<Seq<char>>,
    i: int,
)
    requires
        launcher_search_wf(s),
        launcher_search_step(s, reply, t, n),
        launcher_ahead(s, reply, k),
        s.phase == LauncherPhase::Reading && s.index == k ==> (reply matches Reply::Text(Ok(c))
            && written_launcher(c@, display, exe, kind, terminal, categories, icon, s.canonical_root@, i)),
    ensures
        n != Next::<Option<String>>::Done(None),
        t.phase != LauncherPhase::Listing && t.phase != LauncherPhase::Over ==> 0 <= k
            < t.entries@.len() && is_launcher_file(t.entries@[k]@) && (t.phase
            == LauncherPhase::Reading ==> t.index <= k),
{
    match s.phase {
        LauncherPhase::Listing => {},
        LauncherPhase::Canonical => {
            lemma_first_launcher_reaches(s.entries@, 0, k);
        },
        LauncherPhase::Reading => {
            if s.index == k {
                if let Reply::Text(Ok(c)) = reply {
                    law_written_launcher_found(
                        display,
                        exe,
                        kind,
                        terminal,
                        categories,
                        icon,
                        s.canonical_root@,
                        i,
                    );
                }
            } else if !(reply matches Reply::Text(Ok(c)) && launcher_references_root(
                c@,
                s.canonical_root@,
            )) {
                lemma_first_launcher_reaches(s.entries@, s.index + 1, k);
            }
        },
        LauncherPhase::Over => {},
    }
}

/// The link at index `k` of a link search is still ahead: it is listed
/// (or about to be), and the search has not looked past it.
pub open spec fn link_ahead(s: LinkSearch, reply: Reply, k: int) -> bool {
    &&& s.phase != LinkPhase::Over
    &&& s.phase == LinkPhase::Listing ==> (reply matches Reply::Entries(Some(es)) && 0 <= k
        < es@.len())
    &&& s.phase != LinkPhase::Listing ==> 0 <= k < s.entries@.len()
    &&& (s.phase == LinkPhase::Target || s.phase == LinkPhase::Resolving) ==> s.index <= k
}

/// A link search does not pass over the link an installation made: while
/// that link is listed and ahead, reading it gives back the absolute path
/// of the executable it was made for, and that path resolves under the
/// canonical root, no step ends the search with nothing found, and the
/// link stays ahead until the search ends with a link found.
pub proof fn law_made_link_not_passed_over(
    s: LinkSearch,
    reply: Reply,
    t: LinkSearch,
    n: Next<Option<String>>,
    k: int,
    exe: Seq<char>,
)
    requires
        link_search_wf(s),
        link_search_step(s, reply, t, n),
        link_ahead(s, reply, k),
        is_absolute(exe),
        s.phase == LinkPhase::Target && s.index == k ==> (reply matches Reply::LinkTarget(Some(target))
            && target@ == exe),
        s.phase == LinkPhase::Resolving && s.index == k ==> s.target@ == exe && (
        reply matches Reply::Canonical(r) && path_starts_with(
            resolved_or(r, s.target)@,
            s.canonical_root@,
        )),
    ensures
        n != Next::<Option<String>>::Done(None),
        t.phase != LinkPhase::Listing && t.phase != LinkPhase::Over ==> 0 <= k < t.entries@.len()
            && ((t.phase == LinkPhase::Target || t.phase == LinkPhase::Resolving) ==> t.index <= k),
        t.phase == LinkPhase::Resolving && t.index == k ==> t.target@ == exe,
{
}

} // verus!
