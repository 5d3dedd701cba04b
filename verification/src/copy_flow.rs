//! The copy of an extracted package into its installation root as a step
//! machine. Directories are recreated and copied depth first; regular files
//! are copied with their permission bits; a symbolic link is recreated only
//! when it resolves inside the package, an absolute target being moved to
//! the same place under the installation root; anything else is passed
//! over. The caller performs every request it makes.
use vstd::prelude::*;
use crate::errors::{InstallError, IoStep};
use crate::flow::{answers, Action, EntryFacts, EntryFailure, Next, Reply};
use crate::install::{
    copy_action, copy_dir_contents, copy_internal_symlink, link_copy, link_resolution,
    symlink_resolution, CopyAction,
};
use crate::names::result_view;
use crate::paths::{join, path_join};
use crate::text::owned;

verus! {

/// A directory being copied: where its entries go, the entries read, the
/// failure that ended the reading, if any, and the entry being copied.
#[derive(Debug)]
pub struct CopyFrame {
    pub destination: String,
    pub entries: Vec<EntryFacts>,
    pub failure: Option<EntryFailure>,
    pub index: usize,
}

/// The request a copy waits on.
#[derive(Debug)]
pub enum CopyPhase {
    /// The canonical source directory.
    Root,
    /// The creation of `destination`, before `source` is read.
    MakeDir { source: String, destination: String },
    /// The entries of the directory whose copy goes to `destination`.
    Scan { destination: String },
    /// The copy of the current file to `to`.
    Copying { to: String },
    /// Its permission bits.
    Moding { to: String },
    /// The target of the current link, recreated at `to`.
    LinkTarget { to: String },
    /// The canonical form of what `target` names.
    Resolving { to: String, target: String },
    /// Whether something is already at `to`; the link will point to
    /// `installed`.
    Present { to: String, installed: String },
    /// The removal of what is at `to`.
    Clearing { to: String, installed: String },
    /// The creation of the link.
    Linking,
    /// Nothing: the copy finished or was refused.
    Over,
}

/// A copy under way.
#[derive(Debug)]
pub struct CopyFlow {
    /// The extraction directory as given.
    pub source: String,
    /// Its canonical form, once resolved.
    pub source_root: String,
    /// The installation root.
    pub destination_root: String,
    /// The directories being copied, outermost first.
    pub frames: Vec<CopyFrame>,
    pub phase: CopyPhase,
}

/// What is done with an entry (see `install::copy_action`).
pub open spec fn copy_kind(e: EntryFacts) -> CopyAction {
    if e.is_symlink {
        CopyAction::Link
    } else if e.is_dir {
        CopyAction::Descend
    } else if e.is_file {
        CopyAction::CopyFile
    } else {
        CopyAction::Skip
    }
}

/// The error for an entry that could not be read.
pub open spec fn failure_error(f: EntryFailure) -> InstallError {
    match f {
        EntryFailure::Entry(d) => InstallError::Io(IoStep::ReadPreviewEntry, d),
        EntryFailure::Kind(d) => InstallError::Io(IoStep::ReadPreviewEntryType, d),
        EntryFailure::Info(d) => InstallError::Io(IoStep::ReadPreviewEntryInfo, d),
    }
}

/// The entry being copied.
pub open spec fn current(frames: Seq<CopyFrame>) -> EntryFacts {
    frames.last().entries@[frames.last().index as int]
}

/// `frames` with the innermost directory moved on to its next entry.
pub open spec fn bump(frames: Seq<CopyFrame>) -> Seq<CopyFrame> {
    frames.drop_last().push(CopyFrame { index: (frames.last().index + 1) as usize, ..frames.last() })
}

/// Every directory being copied is at one of its entries, and the
/// innermost at most one past its last.
pub open spec fn frames_wf(frames: Seq<CopyFrame>) -> bool {
    forall|i: int|
        0 <= i < frames.len() ==> #[trigger] frames[i].index <= frames[i].entries@.len() && (i
            < frames.len() - 1 ==> frames[i].index < frames[i].entries@.len())
}

/// How far the innermost directory is from its end.
pub open spec fn remaining(frames: Seq<CopyFrame>) -> int {
    if frames.len() > 0 {
        frames.last().entries@.len() - frames.last().index
    } else {
        0
    }
}

/// Where the copy stands once entries that are passed over are passed
/// over and finished directories are left.
pub enum Settled {
    /// Everything was copied.
    Finished,
    /// A directory could not be read to its end.
    Failed(EntryFailure),
    /// The current entry is to be copied.
    Pending,
}

/// The directories after passing over what is passed over, and where the
/// copy then stands: the innermost directory moves past entries that are
/// neither links, directories nor regular files; a directory read to its
/// end is left for the next entry of the one around it, unless its reading
/// ended with a failure.
pub open spec fn settle(frames: Seq<CopyFrame>) -> (Seq<CopyFrame>, Settled)
    decreases frames.len(), remaining(frames),
{
    if frames.len() == 0 {
        (frames, Settled::Finished)
    } else {
        let top = frames.last();
        if top.index < top.entries@.len() {
            if copy_kind(top.entries@[top.index as int]) == CopyAction::Skip {
                proof {
                    assert(top.entries.len() == top.entries@.len());
                    assert(bump(frames).last().index == top.index + 1);
                }
                settle(bump(frames))
            } else {
                (frames, Settled::Pending)
            }
        } else {
            match top.failure {
                Some(f) => (frames, Settled::Failed(f)),
                None => {
                    let rest = frames.drop_last();
                    if rest.len() == 0 {
                        (rest, Settled::Finished)
                    } else {
                        proof {
                            assert(bump(rest).len() == rest.len());
                        }
                        settle(bump(rest))
                    }
                },
            }
        }
    }
}

/// `t` keeps the roots of `s` and has the directories `frames`.
pub open spec fn keeps(s: CopyFlow, frames: Seq<CopyFrame>, t: CopyFlow) -> bool {
    &&& t.source == s.source
    &&& t.source_root == s.source_root
    &&& t.destination_root == s.destination_root
    &&& t.frames@ == frames
}

/// The copy stopped with `n`.
pub open spec fn stopped(s: CopyFlow, frames: Seq<CopyFrame>, t: CopyFlow, n: Next<()>, e: InstallError) -> bool {
    keeps(s, frames, t) && t.phase is Over && n == Next::<()>::Fail(e)
}

/// The copy of the current entry starts: a link's target is read, a
/// directory is created under the copy of its parent, a file is copied
/// there.
pub open spec fn start_entry(s: CopyFlow, frames: Seq<CopyFrame>, t: CopyFlow, n: Next<()>) -> bool {
    let e = current(frames);
    let to = join(frames.last().destination@, e.name@);
    &&& keeps(s, frames, t)
    &&& match copy_kind(e) {
        CopyAction::Link => {
            &&& t.phase matches CopyPhase::LinkTarget { to: x }
            &&& x@ == to
            &&& n == Next::<()>::Act(Action::ReadLink { path: e.path })
        },
        CopyAction::Descend => {
            &&& t.phase matches CopyPhase::MakeDir { source, destination }
            &&& source == e.path
            &&& destination@ == to
            &&& n == Next::<()>::Act(Action::CreateDir { path: destination })
        },
        CopyAction::CopyFile => {
            &&& t.phase matches CopyPhase::Copying { to: x }
            &&& x@ == to
            &&& n == Next::<()>::Act(Action::CopyFile { from: e.path, to: x })
        },
        CopyAction::Skip => false,
    }
}

/// The copy moves on with the directories `frames` (see `settle`).
pub open spec fn advance(s: CopyFlow, frames: Seq<CopyFrame>, t: CopyFlow, n: Next<()>) -> bool {
    let (fs, r) = settle(frames);
    match r {
        Settled::Finished => keeps(s, fs, t) && t.phase is Over && n == Next::<()>::Done(()),
        Settled::Failed(f) => stopped(s, fs, t, n, failure_error(f)),
        Settled::Pending => start_entry(s, fs, t, n),
    }
}

/// The reply a copy waits on in `phase` is of `reply`'s kind.
pub open spec fn copy_expects(phase: CopyPhase, reply: Reply) -> bool {
    match phase {
        CopyPhase::Root => reply is Canonical,
        CopyPhase::MakeDir { .. } => reply is Status,
        CopyPhase::Scan { .. } => reply is Scanned,
        CopyPhase::Copying { .. } => reply is Status,
        CopyPhase::Moding { .. } => reply is Status,
        CopyPhase::LinkTarget { .. } => reply is Target,
        CopyPhase::Resolving { .. } => reply is Canonical,
        CopyPhase::Present { .. } => reply is Found,
        CopyPhase::Clearing { .. } => reply is Status,
        CopyPhase::Linking => reply is Status,
        CopyPhase::Over => false,
    }
}

/// A copy's directories are well formed: before the source is resolved
/// there are none, and while an entry is being copied, or a directory
/// created or read for one, the innermost is at that entry.
pub open spec fn copy_wf(s: CopyFlow) -> bool {
    &&& frames_wf(s.frames@)
    &&& match s.phase {
        CopyPhase::Root => s.frames@.len() == 0,
        CopyPhase::MakeDir { .. } => s.frames@.len() == 0 || s.frames@.last().index
            < s.frames@.last().entries@.len(),
        CopyPhase::Scan { .. } => s.frames@.len() == 0 || s.frames@.last().index
            < s.frames@.last().entries@.len(),
        CopyPhase::Over => true,
        _ => s.frames@.len() > 0 && s.frames@.last().index < s.frames@.last().entries@.len(),
    }
}

/// How a copy starts: the source directory is resolved first.
pub open spec fn copy_start(source: Seq<char>, destination: Seq<char>, t: CopyFlow, n: Next<()>) -> bool {
    &&& t.source@ == source
    &&& t.destination_root@ == destination
    &&& t.frames@.len() == 0
    &&& t.phase is Root
    &&& n == Next::<()>::Act(Action::Canonicalize { path: t.source })
}

/// One step of a copy: what it does with the reply to its last request.
pub open spec fn copy_step(s: CopyFlow, reply: Reply, t: CopyFlow, n: Next<()>) -> bool {
    let frames = s.frames@;
    match (s.phase, reply) {
        (CopyPhase::Root, Reply::Canonical(Err(d))) => stopped(
            s,
            frames,
            t,
            n,
            InstallError::ReadPreviewDir(d),
        ),
        (CopyPhase::Root, Reply::Canonical(Ok(root))) => {
            &&& t.source == s.source
            &&& t.source_root@ == root@
            &&& t.destination_root == s.destination_root
            &&& t.frames@ == frames
            &&& t.phase matches CopyPhase::MakeDir { source, destination }
            &&& source@ == root@
            &&& destination == s.destination_root
            &&& n == Next::<()>::Act(Action::CreateDir { path: s.destination_root })
        },
        (CopyPhase::MakeDir { .. }, Reply::Status(Err(d))) => stopped(
            s,
            frames,
            t,
            n,
            InstallError::Io(IoStep::CreateInstallDir, d),
        ),
        (CopyPhase::MakeDir { source, destination }, Reply::Status(Ok(_))) => {
            &&& keeps(s, frames, t)
            &&& t.phase == CopyPhase::Scan { destination }
            &&& n == Next::<()>::Act(Action::Scan { path: source })
        },
        (CopyPhase::Scan { .. }, Reply::Scanned(Err(d))) => stopped(
            s,
            frames,
            t,
            n,
            InstallError::ReadPreviewDir(d),
        ),
        (CopyPhase::Scan { destination }, Reply::Scanned(Ok(scan))) => advance(
            s,
            frames.push(
                CopyFrame { destination, entries: scan.entries, failure: scan.failure, index: 0 },
            ),
            t,
            n,
        ),
        (CopyPhase::Copying { .. }, Reply::Status(Err(d))) => stopped(
            s,
            frames,
            t,
            n,
            InstallError::Io(IoStep::CopyInstallFile, d),
        ),
        (CopyPhase::Copying { to }, Reply::Status(Ok(_))) => {
            &&& keeps(s, frames, t)
            &&& t.phase == CopyPhase::Moding { to }
            &&& n == Next::<()>::Act(Action::SetMode { path: to, mode: current(frames).mode })
        },
        (CopyPhase::Moding { .. }, Reply::Status(Err(d))) => stopped(
            s,
            frames,
            t,
            n,
            InstallError::Io(IoStep::CopyPermissions, d),
        ),
        (CopyPhase::Moding { .. }, Reply::Status(Ok(_))) => advance(s, bump(frames), t, n),
        (CopyPhase::LinkTarget { .. }, Reply::Target(Err(d))) => stopped(
            s,
            frames,
            t,
            n,
            InstallError::Io(IoStep::ReadLink, d),
        ),
        (CopyPhase::LinkTarget { to }, Reply::Target(Ok(target))) => {
            &&& keeps(s, frames, t)
            &&& t.phase == CopyPhase::Resolving { to, target }
            &&& n matches Next::Act(Action::Canonicalize { path })
            &&& path@ == link_resolution(current(frames).path@, s.source_root@, target@)
        },
        (CopyPhase::Resolving { to, target }, Reply::Canonical(r)) => match link_copy(
            s.source_root@,
            s.destination_root@,
            target@,
            r,
        ) {
            Err(e) => stopped(s, frames, t, n, e),
            Ok(installed) => {
                &&& keeps(s, frames, t)
                &&& t.phase matches CopyPhase::Present { to: x, installed: y }
                &&& x == to
                &&& y@ == installed
                &&& n == Next::<()>::Act(Action::Present { path: to })
            },
        },
        (CopyPhase::Present { to, installed }, Reply::Found(present)) => {
            &&& keeps(s, frames, t)
            &&& if present {
                &&& t.phase == CopyPhase::Clearing { to, installed }
                &&& n == Next::<()>::Act(Action::RemoveFile { path: to })
            } else {
                &&& t.phase == CopyPhase::Linking
                &&& n == Next::<()>::Act(Action::Symlink { target: installed, link: to })
            }
        },
        (CopyPhase::Clearing { .. }, Reply::Status(Err(d))) => stopped(
            s,
            frames,
            t,
            n,
            InstallError::Io(IoStep::ReplaceCopiedLink, d),
        ),
        (CopyPhase::Clearing { to, installed }, Reply::Status(Ok(_))) => {
            &&& keeps(s, frames, t)
            &&& t.phase == CopyPhase::Linking
            &&& n == Next::<()>::Act(Action::Symlink { target: installed, link: to })
        },
        (CopyPhase::Linking, Reply::Status(Err(d))) => stopped(
            s,
            frames,
            t,
            n,
            InstallError::Io(IoStep::CopyLink, d),
        ),
        (CopyPhase::Linking, Reply::Status(Ok(_))) => advance(s, bump(frames), t, n),
        _ => false,
    }
}

fn clone_failure(f: &EntryFailure) -> (r: EntryFailure)
    ensures
        r == *f,
{
    match f {
        EntryFailure::Entry(d) => EntryFailure::Entry(d.clone()),
        EntryFailure::Kind(d) => EntryFailure::Kind(d.clone()),
        EntryFailure::Info(d) => EntryFailure::Info(d.clone()),
    }
}

fn bump_exec(frames: &mut Vec<CopyFrame>)
    requires
        old(frames)@.len() > 0,
        old(frames)@.last().index < old(frames)@.last().entries@.len(),
    ensures
        final(frames)@ == bump(old(frames)@),
{
    let mut top = frames.pop().unwrap();
    let len = top.entries.len();
    assert(top.index < len);
    top.index = top.index + 1;
    frames.push(top);
}

fn settle_exec(frames: &mut Vec<CopyFrame>) -> (r: Settled)
    requires
        frames_wf(old(frames)@),
    ensures
        (final(frames)@, r) == settle(old(frames)@),
        frames_wf(final(frames)@),
        r is Pending ==> final(frames)@.len() > 0 && final(frames)@.last().index
            < final(frames)@.last().entries@.len() && copy_kind(current(final(frames)@))
            != CopyAction::Skip,
    decreases old(frames)@.len(), remaining(old(frames)@),
{
    let n = frames.len();
    if n == 0 {
        return Settled::Finished;
    }
    let index = frames[n - 1].index;
    assert(frames@[n - 1] == frames@.last());
    if index < frames[n - 1].entries.len() {
        let e = &frames[n - 1].entries[index];
        if copy_action(e.is_symlink, e.is_dir, e.is_file) == CopyAction::Skip {
            let ghost before = frames@;
            bump_exec(frames);
            assert(frames_wf(frames@)) by {
                assert forall|i: int| 0 <= i < frames@.len() implies #[trigger] frames@[i].index
                    <= frames@[i].entries@.len() && (i < frames@.len() - 1 ==> frames@[i].index
                    < frames@[i].entries@.len()) by {
                    if i < frames@.len() - 1 {
                        assert(frames@[i] == before[i]);
                    }
                }
            }
            settle_exec(frames)
        } else {
            Settled::Pending
        }
    } else {
        match &frames[n - 1].failure {
            Some(f) => Settled::Failed(clone_failure(f)),
            None => {
                let ghost before = frames@;
                frames.pop();
                assert(frames@ == before.drop_last());
                if frames.len() == 0 {
                    Settled::Finished
                } else {
                    assert(frames@.last() == before[before.len() - 2]);
                    assert(before[before.len() - 2].index < before[before.len() - 2].entries@.len());
                    let ghost popped = frames@;
                    assert(popped.last().entries.len() == popped.last().entries@.len());
                    bump_exec(frames);
                    assert(frames_wf(frames@)) by {
                        assert forall|i: int| 0 <= i < frames@.len() implies #[trigger] frames@[i].index
                            <= frames@[i].entries@.len() && (i < frames@.len() - 1 ==> frames@[i].index
                            < frames@[i].entries@.len()) by {
                            if i < frames@.len() - 1 {
                                assert(frames@[i] == before[i]);
                            } else {
                                assert(frames@[i] == frames@.last());
                                assert(frames@[i].index == popped.last().index + 1);
                                assert(frames@[i].entries == popped.last().entries);
                            }
                        }
                    }
                    settle_exec(frames)
                }
            },
        }
    }
}

impl CopyFlow {
    /// Starts copying the contents of the extraction directory `source`
    /// into the installation root `destination` (see `copy_start`).
    pub fn start(source: &str, destination: &str) -> (r: (CopyFlow, Next<()>))
        ensures
            copy_start(source@, destination@, r.0, r.1),
            copy_wf(r.0),
            r.1 matches Next::Act(a) ==> forall|reply: Reply|
                answers(a, reply) == copy_expects(r.0.phase, reply),
    {
        let flow = CopyFlow {
            source: owned(source),
            source_root: String::new(),
            destination_root: owned(destination),
            frames: Vec::new(),
            phase: CopyPhase::Root,
        };
        let path = flow.source.clone();
        (flow, Next::Act(Action::Canonicalize { path }))
    }

    /// Whether the copy waits on a reply of `reply`'s kind.
    pub fn accepts(&self, reply: &Reply) -> (r: bool)
        ensures
            r == copy_expects(self.phase, *reply),
    {
        match (&self.phase, reply) {
            (CopyPhase::Root, Reply::Canonical(_)) => true,
            (CopyPhase::MakeDir { .. }, Reply::Status(_)) => true,
            (CopyPhase::Scan { .. }, Reply::Scanned(_)) => true,
            (CopyPhase::Copying { .. }, Reply::Status(_)) => true,
            (CopyPhase::Moding { .. }, Reply::Status(_)) => true,
            (CopyPhase::LinkTarget { .. }, Reply::Target(_)) => true,
            (CopyPhase::Resolving { .. }, Reply::Canonical(_)) => true,
            (CopyPhase::Present { .. }, Reply::Found(_)) => true,
            (CopyPhase::Clearing { .. }, Reply::Status(_)) => true,
            (CopyPhase::Linking, Reply::Status(_)) => true,
            (_, _) => false,
        }
    }

    fn stop(&mut self, e: InstallError) -> (n: Next<()>)
        ensures
            stopped(*old(self), old(self).frames@, *final(self), n, e),
            final(self).frames == old(self).frames,
    {
        self.phase = CopyPhase::Over;
        Next::Fail(e)
    }

    fn start_entry_exec(&mut self) -> (n: Next<()>)
        requires
            old(self).frames@.len() > 0,
            old(self).frames@.last().index < old(self).frames@.last().entries@.len(),
            copy_kind(current(old(self).frames@)) != CopyAction::Skip,
        ensures
            start_entry(*old(self), old(self).frames@, *final(self), n),
            final(self).frames == old(self).frames,
    {
        let k = self.frames.len() - 1;
        assert(self.frames@[k as int] == self.frames@.last());
        let frame = &self.frames[k];
        let e = &frame.entries[frame.index];
        let to = path_join(frame.destination.as_str(), e.name.as_str());
        match copy_action(e.is_symlink, e.is_dir, e.is_file) {
            CopyAction::Link => {
                let path = e.path.clone();
                self.phase = CopyPhase::LinkTarget { to };
                Next::Act(Action::ReadLink { path })
            },
            CopyAction::Descend => {
                let source = e.path.clone();
                let path = to.clone();
                self.phase = CopyPhase::MakeDir { source, destination: to };
                Next::Act(Action::CreateDir { path })
            },
            CopyAction::CopyFile => {
                let from = e.path.clone();
                let target = to.clone();
                self.phase = CopyPhase::Copying { to };
                Next::Act(Action::CopyFile { from, to: target })
            },
            CopyAction::Skip => vstd::pervasive::unreached(),
        }
    }

    fn advance_exec(&mut self) -> (n: Next<()>)
        requires
            frames_wf(old(self).frames@),
        ensures
            advance(*old(self), old(self).frames@, *final(self), n),
            copy_wf(*final(self)),
    {
        match settle_exec(&mut self.frames) {
            Settled::Finished => {
                self.phase = CopyPhase::Over;
                Next::Done(())
            },
            Settled::Failed(f) => {
                let e = match f {
                    EntryFailure::Entry(d) => InstallError::Io(IoStep::ReadPreviewEntry, d),
                    EntryFailure::Kind(d) => InstallError::Io(IoStep::ReadPreviewEntryType, d),
                    EntryFailure::Info(d) => InstallError::Io(IoStep::ReadPreviewEntryInfo, d),
                };
                self.stop(e)
            },
            Settled::Pending => self.start_entry_exec(),
        }
    }

    /// One step of the copy (see `copy_step`): `reply` answers the last
    /// request. Each request it makes is answered by a reply of the kind it
    /// next accepts.
    pub fn resume(&mut self, reply: Reply) -> (n: Next<()>)
        requires
            copy_expects(old(self).phase, reply),
            copy_wf(*old(self)),
        ensures
            copy_step(*old(self), reply, *final(self), n),
            copy_wf(*final(self)),
            n matches Next::Act(a) ==> forall|r: Reply| answers(a, r) == copy_expects(final(self).phase, r),
    {
        let mut phase = CopyPhase::Over;
        core::mem::swap(&mut phase, &mut self.phase);
        match (phase, reply) {
            (CopyPhase::Root, Reply::Canonical(r)) => match copy_dir_contents(
                &r,
                self.destination_root.as_str(),
            ) {
                Err(e) => self.stop(e),
                Ok(roots) => {
                    let source = roots.source_root.clone();
                    self.source_root = roots.source_root;
                    self.phase = CopyPhase::MakeDir {
                        source,
                        destination: self.destination_root.clone(),
                    };
                    Next::Act(Action::CreateDir { path: self.destination_root.clone() })
                },
            },
            (CopyPhase::MakeDir { source, destination }, Reply::Status(r)) => match r {
                Err(d) => self.stop(InstallError::Io(IoStep::CreateInstallDir, d)),
                Ok(_) => {
                    self.phase = CopyPhase::Scan { destination };
                    Next::Act(Action::Scan { path: source })
                },
            },
            (CopyPhase::Scan { destination }, Reply::Scanned(r)) => match r {
                Err(d) => self.stop(InstallError::ReadPreviewDir(d)),
                Ok(scan) => {
                    let ghost before = self.frames@;
                    self.frames.push(
                        CopyFrame { destination, entries: scan.entries, failure: scan.failure, index: 0 },
                    );
                    assert(frames_wf(self.frames@)) by {
                        assert forall|i: int| 0 <= i < self.frames@.len() implies #[trigger] self.frames@[i].index
                            <= self.frames@[i].entries@.len() && (i < self.frames@.len() - 1
                            ==> self.frames@[i].index < self.frames@[i].entries@.len()) by {
                            if i < self.frames@.len() - 1 {
                                assert(self.frames@[i] == before[i]);
                            }
                        }
                    }
                    self.advance_exec()
                },
            },
            (CopyPhase::Copying { to }, Reply::Status(r)) => match r {
                Err(d) => self.stop(InstallError::Io(IoStep::CopyInstallFile, d)),
                Ok(_) => {
                    let k = self.frames.len() - 1;
                    assert(self.frames@[k as int] == self.frames@.last());
                    let mode = self.frames[k].entries[self.frames[k].index].mode;
                    let path = to.clone();
                    self.phase = CopyPhase::Moding { to };
                    Next::Act(Action::SetMode { path, mode })
                },
            },
            (CopyPhase::Moding { .. }, Reply::Status(r)) => match r {
                Err(d) => self.stop(InstallError::Io(IoStep::CopyPermissions, d)),
                Ok(_) => self.next_entry(),
            },
            (CopyPhase::LinkTarget { to }, Reply::Target(r)) => match r {
                Err(d) => self.stop(InstallError::Io(IoStep::ReadLink, d)),
                Ok(target) => {
                    let k = self.frames.len() - 1;
                    assert(self.frames@[k as int] == self.frames@.last());
                    let path = symlink_resolution(
                        self.frames[k].entries[self.frames[k].index].path.as_str(),
                        self.source_root.as_str(),
                        target.as_str(),
                    );
                    self.phase = CopyPhase::Resolving { to, target };
                    Next::Act(Action::Canonicalize { path })
                },
            },
            (CopyPhase::Resolving { to, target }, Reply::Canonical(r)) => match copy_internal_symlink(
                self.source_root.as_str(),
                self.destination_root.as_str(),
                target.as_str(),
                &r,
            ) {
                Err(e) => self.stop(e),
                Ok(installed) => {
                    let path = to.clone();
                    self.phase = CopyPhase::Present { to, installed };
                    Next::Act(Action::Present { path })
                },
            },
            (CopyPhase::Present { to, installed }, Reply::Found(present)) => if present {
                let path = to.clone();
                self.phase = CopyPhase::Clearing { to, installed };
                Next::Act(Action::RemoveFile { path })
            } else {
                self.phase = CopyPhase::Linking;
                Next::Act(Action::Symlink { target: installed, link: to })
            },
            (CopyPhase::Clearing { to, installed }, Reply::Status(r)) => match r {
                Err(d) => self.stop(InstallError::Io(IoStep::ReplaceCopiedLink, d)),
                Ok(_) => {
                    self.phase = CopyPhase::Linking;
                    Next::Act(Action::Symlink { target: installed, link: to })
                },
            },
            (CopyPhase::Linking, Reply::Status(r)) => match r {
                Err(d) => self.stop(InstallError::Io(IoStep::CopyLink, d)),
                Ok(_) => self.next_entry(),
            },
            (_, _) => vstd::pervasive::unreached(),
        }
    }

    fn next_entry(&mut self) -> (n: Next<()>)
        requires
            frames_wf(old(self).frames@),
            old(self).frames@.len() > 0,
            old(self).frames@.last().index < old(self).frames@.last().entries@.len(),
        ensures
            advance(*old(self), bump(old(self).frames@), *final(self), n),
            copy_wf(*final(self)),
    {
        let ghost before = self.frames@;
        bump_exec(&mut self.frames);
        assert(frames_wf(self.frames@)) by {
            assert forall|i: int| 0 <= i < self.frames@.len() implies #[trigger] self.frames@[i].index
                <= self.frames@[i].entries@.len() && (i < self.frames@.len() - 1 ==> self.frames@[i].index
                < self.frames@[i].entries@.len()) by {
                if i < self.frames@.len() - 1 {
                    assert(self.frames@[i] == before[i]);
                }
            }
        }
        self.advance_exec()
    }
}

} // verus!
