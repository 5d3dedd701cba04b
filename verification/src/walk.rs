//! The walk of a directory tree that finds the regular files under it, as
//! a step machine: each step takes the entries of one directory and asks
//! for the next directory still to be read. Directories are read last in,
//! first out; what cannot be read is passed over, and links are not
//! followed.
use vstd::prelude::*;
use crate::flow::{answers, Action, Next, Reply, WalkEntry};
use crate::text::owned;

verus! {

/// A walk of a directory tree.
#[derive(Debug)]
pub struct FileWalk {
    /// The directories found and not read yet.
    pub pending: Vec<String>,
    /// The regular files found so far, with their permission bits.
    pub files: Vec<(String, u32)>,
    /// Whether the walk is over.
    pub over: bool,
}

/// The directories still to read and the files found, after the entries
/// `entries` of a directory: a directory is put on the pile, a regular
/// file is kept with its permission bits, and anything else, or an entry
/// that could not be read, is passed over.
pub open spec fn absorb(
    pending: Seq<String>,
    files: Seq<(String, u32)>,
    entries: Seq<Option<WalkEntry>>,
) -> (Seq<String>, Seq<(String, u32)>)
    decreases entries.len(),
{
    if entries.len() == 0 {
        (pending, files)
    } else {
        let (p, f) = absorb(pending, files, entries.drop_last());
        match entries.last() {
            Some(e) => if e.is_dir {
                (p.push(e.path), f)
            } else if e.is_file {
                (p, f.push((e.path, e.mode)))
            } else {
                (p, f)
            },
            None => (p, f),
        }
    }
}

/// The walk goes on with `pending` still to read and `files` found: it
/// reads the directory found last, or, when none is left, ends with the
/// files.
pub open spec fn walk_next(
    pending: Seq<String>,
    files: Seq<(String, u32)>,
    t: FileWalk,
    n: Next<Vec<(String, u32)>>,
) -> bool {
    if pending.len() == 0 {
        &&& t.over
        &&& n matches Next::Done(v) && v@ == files
    } else {
        &&& !t.over
        &&& t.files@ == files
        &&& t.pending@ == pending.drop_last()
        &&& n == Next::<Vec<(String, u32)>>::Act(Action::Survey { path: pending.last() })
    }
}

/// How a walk starts: by reading the root, with nothing found.
pub open spec fn walk_start(root: Seq<char>, t: FileWalk, n: Next<Vec<(String, u32)>>) -> bool {
    &&& !t.over
    &&& t.pending@.len() == 0
    &&& t.files@.len() == 0
    &&& n matches Next::Act(Action::Survey { path }) && path@ == root
}

/// One step of a walk: the entries of the directory just read are taken
/// in (none when it could not be read), and the walk goes on.
pub open spec fn walk_step(s: FileWalk, reply: Reply, t: FileWalk, n: Next<Vec<(String, u32)>>) -> bool {
    match reply {
        Reply::Surveyed(None) => walk_next(s.pending@, s.files@, t, n),
        Reply::Surveyed(Some(entries)) => {
            let (p, f) = absorb(s.pending@, s.files@, entries@);
            walk_next(p, f, t, n)
        },
        _ => false,
    }
}

/// The reply a walk waits on is of `reply`'s kind.
pub open spec fn walk_expects(s: FileWalk, reply: Reply) -> bool {
    !s.over && reply is Surveyed
}

proof fn lemma_absorb_extends(pending: Seq<String>, files: Seq<(String, u32)>, entries: Seq<Option<WalkEntry>>)
    ensures
        files.len() <= absorb(pending, files, entries).1.len(),
        absorb(pending, files, entries).1.take(files.len() as int) == files,
        absorb(pending, files, entries).1.len() <= files.len() + entries.len(),
    decreases entries.len(),
{
    if entries.len() > 0 {
        lemma_absorb_extends(pending, files, entries.drop_last());
        let f = absorb(pending, files, entries.drop_last()).1;
        if let Some(e) = entries.last() {
            if !e.is_dir && e.is_file {
                assert(f.push((e.path, e.mode)).take(files.len() as int) =~= f.take(files.len() as int));
            }
        }
    }
}

/// A walk never loses a file it found: each step keeps the files found so
/// far, in order, and adds at most one file per entry read.
pub proof fn law_walk_keeps_found(s: FileWalk, reply: Reply, t: FileWalk, n: Next<Vec<(String, u32)>>)
    requires
        walk_step(s, reply, t, n),
    ensures
        ({
            let found = match n {
                Next::Done(v) => v@,
                _ => t.files@,
            };
            &&& found.take(s.files@.len() as int) == s.files@
            &&& s.files@.len() <= found.len()
            &&& reply matches Reply::Surveyed(r) && found.len() <= s.files@.len() + match r {
                Some(es) => es@.len(),
                None => 0,
            }
        }),
{
    match reply {
        Reply::Surveyed(Some(es)) => lemma_absorb_extends(s.pending@, s.files@, es@),
        _ => {
            assert(s.files@.take(s.files@.len() as int) =~= s.files@);
        },
    }
}

impl FileWalk {
    /// Starts a walk of the tree under `root` (see `walk_start`).
    pub fn start(root: &str) -> (r: (FileWalk, Next<Vec<(String, u32)>>))
        ensures
            walk_start(root@, r.0, r.1),
            r.1 matches Next::Act(a) ==> forall|reply: Reply|
                answers(a, reply) == walk_expects(r.0, reply),
    {
        let walk = FileWalk { pending: Vec::new(), files: Vec::new(), over: false };
        (walk, Next::Act(Action::Survey { path: owned(root) }))
    }

    /// Whether the walk waits on a reply of `reply`'s kind.
    pub fn accepts(&self, reply: &Reply) -> (r: bool)
        ensures
            r == walk_expects(*self, *reply),
    {
        !self.over && match reply {
            Reply::Surveyed(_) => true,
            _ => false,
        }
    }

    fn take_in(&mut self, entries: &Vec<Option<WalkEntry>>)
        ensures
            (final(self).pending@, final(self).files@) == absorb(
                old(self).pending@,
                old(self).files@,
                entries@,
            ),
            final(self).over == old(self).over,
    {
        let ghost p0 = self.pending@;
        let ghost f0 = self.files@;
        let n = entries.len();
        for i in 0..n
            invariant
                n == entries@.len(),
                self.over == old(self).over,
                p0 == old(self).pending@,
                f0 == old(self).files@,
                (self.pending@, self.files@) == absorb(p0, f0, entries@.take(i as int)),
        {
            assert(entries@.take(i + 1).drop_last() =~= entries@.take(i as int));
            assert(entries@.take(i + 1).last() == entries@[i as int]);
            match &entries[i] {
                Some(e) => {
                    if e.is_dir {
                        self.pending.push(e.path.clone());
                    } else if e.is_file {
                        self.files.push((e.path.clone(), e.mode));
                    }
                },
                None => {},
            }
        }
        assert(entries@.take(n as int) =~= entries@);
    }

    fn go_on(&mut self) -> (n: Next<Vec<(String, u32)>>)
        ensures
            walk_next(old(self).pending@, old(self).files@, *final(self), n),
    {
        match self.pending.pop() {
            None => {
                self.over = true;
                let mut files: Vec<(String, u32)> = Vec::new();
                core::mem::swap(&mut files, &mut self.files);
                Next::Done(files)
            },
            Some(path) => {
                self.over = false;
                Next::Act(Action::Survey { path })
            },
        }
    }

    /// Takes the reply to the walk's last request and makes the next one
    /// (see `walk_step`).
    pub fn resume(&mut self, reply: Reply) -> (n: Next<Vec<(String, u32)>>)
        requires
            walk_expects(*old(self), reply),
        ensures
            walk_step(*old(self), reply, *final(self), n),
            n matches Next::Act(a) ==> forall|r: Reply| answers(a, r) == walk_expects(*final(self), r),
    {
        match reply {
            Reply::Surveyed(None) => self.go_on(),
            Reply::Surveyed(Some(entries)) => {
                self.take_in(&entries);
                self.go_on()
            },
            _ => Next::Done(Vec::new()),
        }
    }
}

} // verus!
