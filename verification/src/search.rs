//! The searches for what belongs to an installation outside its
//! directory: the user's launcher that starts it, and the command-line
//! link that points into it. Both are step machines; the caller performs
//! every request they make. A search never fails: what cannot be read is
//! passed over.
use vstd::prelude::*;
use crate::desktop::{applications_dir, desktop_file_references_root, is_desktop_file, is_launcher_file,
    launcher_references_root};
use crate::flow::{answers, Action, Next, Reply};
use crate::install::{link_target, local_bin, resolve_link_target};
use crate::paths::{path_join, path_starts_with, path_starts_with_str};
use crate::text::owned;

verus! {

/// The canonical form of a path if it could be resolved, else the path.
pub open spec fn resolved_or(r: Result<String, String>, path: String) -> String {
    match r {
        Ok(c) => c,
        Err(_) => path,
    }
}

fn resolved_or_exec(r: Result<String, String>, path: &String) -> (c: String)
    ensures
        c == resolved_or(r, *path),
{
    match r {
        Ok(c) => c,
        Err(_) => path.clone(),
    }
}

// ---------------------------------------------------------------------------
// The launcher
// ---------------------------------------------------------------------------

/// The request a launcher search waits on.
#[derive(Clone, Copy, Debug, PartialEq, Eq, Structural)]
pub enum LauncherPhase {
    /// The entries of the launcher directory.
    Listing,
    /// The canonical installation root.
    Canonical,
    /// The text of the entry at `index`.
    Reading,
    /// Nothing: the search is over.
    Over,
}

/// A search for the launcher that starts an installation.
#[derive(Debug)]
pub struct LauncherSearch {
    /// The installation root.
    pub root: String,
    /// Its canonical form, once resolved.
    pub canonical_root: String,
    /// The entries of the launcher directory.
    pub entries: Vec<String>,
    /// The entry being read.
    pub index: usize,
    pub phase: LauncherPhase,
}

/// The index of the first launcher file among `entries` from `i` on.
pub open spec fn first_launcher(entries: Seq<String>, i: int) -> Option<int>
    decreases entries.len() - i,
{
    if i < 0 || i >= entries.len() {
        None
    } else if is_launcher_file(entries[i]@) {
        Some(i)
    } else {
        first_launcher(entries, i + 1)
    }
}

/// The reply a launcher search waits on in `phase` is of `reply`'s kind.
pub open spec fn launcher_search_expects(phase: LauncherPhase, reply: Reply) -> bool {
    match phase {
        LauncherPhase::Listing => reply is Entries,
        LauncherPhase::Canonical => reply is Canonical,
        LauncherPhase::Reading => reply is Text,
        LauncherPhase::Over => false,
    }
}

/// The search goes on from the entry at `i`: the next launcher file is
/// read, and when there is none, nothing was found.
pub open spec fn launcher_scan(s: LauncherSearch, i: int, t: LauncherSearch, n: Next<Option<String>>) -> bool {
    match first_launcher(s.entries@, i) {
        None => t == LauncherSearch { phase: LauncherPhase::Over, ..s } && n == Next::<
            Option<String>,
        >::Done(None),
        Some(j) => {
            &&& t == LauncherSearch { phase: LauncherPhase::Reading, index: j as usize, ..s }
            &&& n == Next::<Option<String>>::Act(Action::ReadText { path: s.entries@[j] })
        },
    }
}

/// How a launcher search starts: without a home directory nothing is
/// found; otherwise the user's launcher directory is listed.
pub open spec fn launcher_search_start(
    home: Option<Seq<char>>,
    root: Seq<char>,
    t: LauncherSearch,
    n: Next<Option<String>>,
) -> bool {
    &&& t.root@ == root
    &&& match home {
        None => t.phase == LauncherPhase::Over && n == Next::<Option<String>>::Done(None),
        Some(h) => {
            &&& t.phase == LauncherPhase::Listing
            &&& n matches Next::Act(Action::ListDir { path })
            &&& path@ == applications_dir(h)
        },
    }
}

/// One step of a launcher search: an unreadable directory holds nothing;
/// the root is compared in its canonical form (or as it is, if it does not
/// resolve); the first launcher file whose text reads and starts the
/// installation is the one found.
pub open spec fn launcher_search_step(
    s: LauncherSearch,
    reply: Reply,
    t: LauncherSearch,
    n: Next<Option<String>>,
) -> bool {
    match (s.phase, reply) {
        (LauncherPhase::Listing, Reply::Entries(None)) => t == LauncherSearch {
            phase: LauncherPhase::Over,
            ..s
        } && n == Next::<Option<String>>::Done(None),
        (LauncherPhase::Listing, Reply::Entries(Some(entries))) => {
            &&& t == LauncherSearch { phase: LauncherPhase::Canonical, entries, ..s }
            &&& n == Next::<Option<String>>::Act(Action::Canonicalize { path: s.root })
        },
        (LauncherPhase::Canonical, Reply::Canonical(r)) => launcher_scan(
            LauncherSearch { canonical_root: resolved_or(r, s.root), ..s },
            0,
            t,
            n,
        ),
        (LauncherPhase::Reading, Reply::Text(text)) => if text matches Ok(c)
            && launcher_references_root(c@, s.canonical_root@) {
            &&& t == LauncherSearch { phase: LauncherPhase::Over, ..s }
            &&& n == Next::<Option<String>>::Done(Some(s.entries@[s.index as int]))
        } else {
            launcher_scan(s, s.index + 1, t, n)
        },
        _ => false,
    }
}

/// A launcher search reads entries within its list.
pub open spec fn launcher_search_wf(s: LauncherSearch) -> bool {
    s.phase == LauncherPhase::Reading ==> s.index < s.entries@.len()
}

impl LauncherSearch {
    /// Starts a search for the launcher of the installation at `root`;
    /// `home` is the value of `HOME`, if it is set.
    pub fn start(home: Option<&str>, root: &str) -> (r: (LauncherSearch, Next<Option<String>>))
        ensures
            launcher_search_start(crate::names::opt_str_view(home), root@, r.0, r.1),
            launcher_search_wf(r.0),
            r.1 matches Next::Act(a) ==> forall|reply: Reply|
                answers(a, reply) == launcher_search_expects(r.0.phase, reply),
    {
        let mut search = LauncherSearch {
            root: owned(root),
            canonical_root: String::new(),
            entries: Vec::new(),
            index: 0,
            phase: LauncherPhase::Listing,
        };
        match home {
            None => {
                search.phase = LauncherPhase::Over;
                (search, Next::Done(None))
            },
            Some(h) => {
                let path = path_join(h, ".local/share/applications");
                (search, Next::Act(Action::ListDir { path }))
            },
        }
    }

    /// Whether the search waits on a reply of `reply`'s kind.
    pub fn accepts(&self, reply: &Reply) -> (r: bool)
        ensures
            r == launcher_search_expects(self.phase, *reply),
    {
        match (&self.phase, reply) {
            (LauncherPhase::Listing, Reply::Entries(_)) => true,
            (LauncherPhase::Canonical, Reply::Canonical(_)) => true,
            (LauncherPhase::Reading, Reply::Text(_)) => true,
            (_, _) => false,
        }
    }

    fn scan(&mut self, from: usize) -> (n: Next<Option<String>>)
        requires
            from <= old(self).entries@.len(),
        ensures
            launcher_scan(*old(self), from as int, *final(self), n),
            launcher_search_wf(*final(self)),
        decreases old(self).entries@.len() - from,
    {
        if from >= self.entries.len() {
            self.phase = LauncherPhase::Over;
            return Next::Done(None);
        }
        if is_desktop_file(self.entries[from].as_str()) {
            self.phase = LauncherPhase::Reading;
            self.index = from;
            Next::Act(Action::ReadText { path: self.entries[from].clone() })
        } else {
            self.scan(from + 1)
        }
    }

    /// One step of the search (see `launcher_search_step`): `reply`
    /// answers the last request. Each request it makes is answered by a
    /// reply of the kind it next accepts. A search never fails.
    pub fn resume(&mut self, reply: Reply) -> (n: Next<Option<String>>)
        requires
            launcher_search_expects(old(self).phase, reply),
            launcher_search_wf(*old(self)),
        ensures
            launcher_search_step(*old(self), reply, *final(self), n),
            launcher_search_wf(*final(self)),
            !(n is Fail),
            n matches Next::Act(a) ==> forall|r: Reply|
                answers(a, r) == launcher_search_expects(final(self).phase, r),
    {
        match reply {
            Reply::Entries(None) => {
                self.phase = LauncherPhase::Over;
                Next::Done(None)
            },
            Reply::Entries(Some(entries)) => {
                self.entries = entries;
                self.phase = LauncherPhase::Canonical;
                Next::Act(Action::Canonicalize { path: self.root.clone() })
            },
            Reply::Canonical(r) => {
                self.canonical_root = resolved_or_exec(r, &self.root);
                self.scan(0)
            },
            Reply::Text(text) => {
                let found = match &text {
                    Ok(c) => desktop_file_references_root(c.as_str(), self.canonical_root.as_str()),
                    Err(_) => false,
                };
                if found {
                    self.phase = LauncherPhase::Over;
                    Next::Done(Some(self.entries[self.index].clone()))
                } else {
                    let len = self.entries.len();
                    assert(self.index < len);
                    let next = self.index + 1;
                    self.scan(next)
                }
            },
            _ => vstd::pervasive::unreached(),
        }
    }
}

// ---------------------------------------------------------------------------
// The command-line link
// ---------------------------------------------------------------------------

/// The request a link search waits on.
#[derive(Clone, Copy, Debug, PartialEq, Eq, Structural)]
pub enum LinkPhase {
    /// The entries of the directory of commands.
    Listing,
    /// The canonical installation root.
    Canonical,
    /// The target of the entry at `index`, if it is a link.
    Target,
    /// The canonical form of that target.
    Resolving,
    /// Nothing: the search is over.
    Over,
}

/// A search for the command-line link that points into an installation.
#[derive(Debug)]
pub struct LinkSearch {
    /// The installation root.
    pub root: String,
    /// Its canonical form, once resolved.
    pub canonical_root: String,
    /// The entries of the directory of commands.
    pub entries: Vec<String>,
    /// The entry being examined.
    pub index: usize,
    /// The path its target names (see `install::link_target`).
    pub target: String,
    pub phase: LinkPhase,
}

/// The reply a link search waits on in `phase` is of `reply`'s kind.
pub open spec fn link_search_expects(phase: LinkPhase, reply: Reply) -> bool {
    match phase {
        LinkPhase::Listing => reply is Entries,
        LinkPhase::Canonical => reply is Canonical,
        LinkPhase::Target => reply is LinkTarget,
        LinkPhase::Resolving => reply is Canonical,
        LinkPhase::Over => false,
    }
}

/// A link search examines entries within its list.
pub open spec fn link_search_wf(s: LinkSearch) -> bool {
    (s.phase == LinkPhase::Target || s.phase == LinkPhase::Resolving) ==> s.index < s.entries@.len()
}

/// The search goes on from the entry at `i`: its link target is read, and
/// when there are no more entries, nothing was found.
pub open spec fn link_scan(s: LinkSearch, i: int, t: LinkSearch, n: Next<Option<String>>) -> bool {
    if i >= s.entries@.len() {
        t == LinkSearch { phase: LinkPhase::Over, ..s } && n == Next::<Option<String>>::Done(None)
    } else {
        &&& t == LinkSearch { phase: LinkPhase::Target, index: i as usize, ..s }
        &&& n == Next::<Option<String>>::Act(Action::ReadLinkTarget { path: s.entries@[i] })
    }
}

/// How a link search starts: without a home directory nothing is found;
/// otherwise the user's directory of commands is listed.
pub open spec fn link_search_start(
    home: Option<Seq<char>>,
    root: Seq<char>,
    t: LinkSearch,
    n: Next<Option<String>>,
) -> bool {
    &&& t.root@ == root
    &&& match home {
        None => t.phase == LinkPhase::Over && n == Next::<Option<String>>::Done(None),
        Some(h) => {
            &&& t.phase == LinkPhase::Listing
            &&& n matches Next::Act(Action::ListDir { path })
            &&& path@ == local_bin(h)
        },
    }
}

/// One step of a link search: an unreadable directory holds nothing; the
/// root is compared in its canonical form (or as it is); entries that are
/// not readable links are passed over; the first link whose target, in
/// its canonical form (or as it is), lies under the root is the one found.
pub open spec fn link_search_step(s: LinkSearch, reply: Reply, t: LinkSearch, n: Next<Option<String>>) -> bool {
    match (s.phase, reply) {
        (LinkPhase::Listing, Reply::Entries(None)) => t == LinkSearch {
            phase: LinkPhase::Over,
            ..s
        } && n == Next::<Option<String>>::Done(None),
        (LinkPhase::Listing, Reply::Entries(Some(entries))) => {
            &&& t == LinkSearch { phase: LinkPhase::Canonical, entries, ..s }
            &&& n == Next::<Option<String>>::Act(Action::Canonicalize { path: s.root })
        },
        (LinkPhase::Canonical, Reply::Canonical(r)) => link_scan(
            LinkSearch { canonical_root: resolved_or(r, s.root), ..s },
            0,
            t,
            n,
        ),
        (LinkPhase::Target, Reply::LinkTarget(None)) => link_scan(s, s.index + 1, t, n),
        (LinkPhase::Target, Reply::LinkTarget(Some(target))) => {
            &&& t == LinkSearch { phase: LinkPhase::Resolving, target: t.target, ..s }
            &&& t.target@ == link_target(s.entries@[s.index as int]@, target@)
            &&& n == Next::<Option<String>>::Act(Action::Canonicalize { path: t.target })
        },
        (LinkPhase::Resolving, Reply::Canonical(r)) => if path_starts_with(
            resolved_or(r, s.target)@,
            s.canonical_root@,
        ) {
            &&& t == LinkSearch { phase: LinkPhase::Over, ..s }
            &&& n == Next::<Option<String>>::Done(Some(s.entries@[s.index as int]))
        } else {
            link_scan(s, s.index + 1, t, n)
        },
        _ => false,
    }
}

impl LinkSearch {
    /// Starts a search for the command-line link into the installation at
    /// `root`; `home` is the value of `HOME`, if it is set.
    pub fn start(home: Option<&str>, root: &str) -> (r: (LinkSearch, Next<Option<String>>))
        ensures
            link_search_start(crate::names::opt_str_view(home), root@, r.0, r.1),
            link_search_wf(r.0),
            r.1 matches Next::Act(a) ==> forall|reply: Reply|
                answers(a, reply) == link_search_expects(r.0.phase, reply),
    {
        let mut search = LinkSearch {
            root: owned(root),
            canonical_root: String::new(),
            entries: Vec::new(),
            index: 0,
            target: String::new(),
            phase: LinkPhase::Listing,
        };
        match home {
            None => {
                search.phase = LinkPhase::Over;
                (search, Next::Done(None))
            },
            Some(h) => {
                let path = path_join(h, ".local/bin");
                (search, Next::Act(Action::ListDir { path }))
            },
        }
    }

    /// Whether the search waits on a reply of `reply`'s kind.
    pub fn accepts(&self, reply: &Reply) -> (r: bool)
        ensures
            r == link_search_expects(self.phase, *reply),
    {
        match (&self.phase, reply) {
            (LinkPhase::Listing, Reply::Entries(_)) => true,
            (LinkPhase::Canonical, Reply::Canonical(_)) => true,
            (LinkPhase::Target, Reply::LinkTarget(_)) => true,
            (LinkPhase::Resolving, Reply::Canonical(_)) => true,
            (_, _) => false,
        }
    }

    fn scan(&mut self, from: usize) -> (n: Next<Option<String>>)
        requires
            from <= old(self).entries@.len(),
        ensures
            link_scan(*old(self), from as int, *final(self), n),
            link_search_wf(*final(self)),
    {
        if from >= self.entries.len() {
            self.phase = LinkPhase::Over;
            Next::Done(None)
        } else {
            self.phase = LinkPhase::Target;
            self.index = from;
            Next::Act(Action::ReadLinkTarget { path: self.entries[from].clone() })
        }
    }

    /// One step of the search (see `link_search_step`): `reply` answers the
    /// last request. Each request it makes is answered by a reply of the
    /// kind it next accepts. A search never fails.
    pub fn resume(&mut self, reply: Reply) -> (n: Next<Option<String>>)
        requires
            link_search_expects(old(self).phase, reply),
            link_search_wf(*old(self)),
        ensures
            link_search_step(*old(self), reply, *final(self), n),
            link_search_wf(*final(self)),
            !(n is Fail),
            n matches Next::Act(a) ==> forall|r: Reply|
                answers(a, r) == link_search_expects(final(self).phase, r),
    {
        match (self.phase, reply) {
            (LinkPhase::Listing, Reply::Entries(None)) => {
                self.phase = LinkPhase::Over;
                Next::Done(None)
            },
            (LinkPhase::Listing, Reply::Entries(Some(entries))) => {
                self.entries = entries;
                self.phase = LinkPhase::Canonical;
                Next::Act(Action::Canonicalize { path: self.root.clone() })
            },
            (LinkPhase::Canonical, Reply::Canonical(r)) => {
                self.canonical_root = resolved_or_exec(r, &self.root);
                self.scan(0)
            },
            (LinkPhase::Target, Reply::LinkTarget(None)) => {
                let len = self.entries.len();
                assert(self.index < len);
                let next = self.index + 1;
                self.scan(next)
            },
            (LinkPhase::Target, Reply::LinkTarget(Some(target))) => {
                self.target = resolve_link_target(self.entries[self.index].as_str(), target.as_str());
                self.phase = LinkPhase::Resolving;
                Next::Act(Action::Canonicalize { path: self.target.clone() })
            },
            (LinkPhase::Resolving, Reply::Canonical(r)) => {
                let c = resolved_or_exec(r, &self.target);
                if path_starts_with_str(c.as_str(), self.canonical_root.as_str()) {
                    self.phase = LinkPhase::Over;
                    Next::Done(Some(self.entries[self.index].clone()))
                } else {
                    let len = self.entries.len();
                    assert(self.index < len);
                    let next = self.index + 1;
                    self.scan(next)
                }
            },
            (_, _) => vstd::pervasive::unreached(),
        }
    }
}

} // verus!
