//! Whole runs of the searches for what an installation leaves outside its
//! directory, against a file system that does not change while they run:
//! the launcher and the command-line link an installation made are found
//! again.
use vstd::prelude::*;
use crate::candidates::strings;
use crate::desktop::{applications_dir, launcher_references_root};
use crate::flow::{Action, Next, Reply};
use crate::flow_laws::{lemma_first_launcher_reaches, written_launcher};
use crate::install::{link_target, local_bin};
use crate::laws::{law_launcher_path_is_launcher_file, law_written_launcher_found};
use crate::model::PackageKind;
use crate::names::sanitized_stem;
use crate::paths::{is_absolute, join, opt_view, path_starts_with};
use crate::search::{
    launcher_search_start, launcher_search_step, launcher_search_wf, link_search_start, link_search_step, link_search_wf, resolved_or, LauncherPhase,
    LauncherSearch, LinkPhase, LinkSearch,
};

verus! {

/// The canonical form of `p` where it has one, else `p` itself.
pub open spec fn canonical_or(canon: spec_fn(Seq<char>) -> Option<Seq<char>>, p: Seq<char>) -> Seq<
    char,
> {
    match canon(p) {
        Some(c) => c,
        None => p,
    }
}

/// `reply` is what a file system gives to `action`: each directory lists
/// the paths `list` gives (`None`: it cannot be read), each path resolves
/// as `canon` says, each link points where `link` says (`None`: not a
/// readable link), and each file reads as `read` says.
pub open spec fn fs_answers(
    list: spec_fn(Seq<char>) -> Option<Seq<Seq<char>>>,
    canon: spec_fn(Seq<char>) -> Option<Seq<char>>,
    link: spec_fn(Seq<char>) -> Option<Seq<char>>,
    read: spec_fn(Seq<char>) -> Option<Seq<char>>,
    action: Action,
    reply: Reply,
) -> bool {
    match (action, reply) {
        (Action::ListDir { path }, Reply::Entries(None)) => list(path@) is None,
        (Action::ListDir { path }, Reply::Entries(Some(es))) => list(path@) == Some(strings(es@)),
        (Action::Canonicalize { path }, Reply::Canonical(Ok(c))) => canon(path@) == Some(c@),
        (Action::Canonicalize { path }, Reply::Canonical(Err(_))) => canon(path@) is None,
        (Action::ReadLinkTarget { path }, Reply::LinkTarget(t)) => link(path@) == opt_view(t),
        (Action::ReadText { path }, Reply::Text(Ok(c))) => read(path@) == Some(c@),
        (Action::ReadText { path }, Reply::Text(Err(_))) => read(path@) is None,
        _ => false,
    }
}

// ---------------------------------------------------------------------------
// The command-line link
// ---------------------------------------------------------------------------

/// A run of a link search: its states and what it asked or gave after
/// each, each request answered by the file system.
pub open spec fn link_run(
    list: spec_fn(Seq<char>) -> Option<Seq<Seq<char>>>,
    canon: spec_fn(Seq<char>) -> Option<Seq<char>>,
    link: spec_fn(Seq<char>) -> Option<Seq<char>>,
    read: spec_fn(Seq<char>) -> Option<Seq<char>>,
    states: Seq<LinkSearch>,
    nexts: Seq<Next<Option<String>>>,
    replies: Seq<Reply>,
) -> bool {
    &&& states.len() == replies.len() + 1
    &&& nexts.len() == replies.len() + 1
    &&& forall|i: int|
        0 <= i < replies.len() ==> (#[trigger] nexts[i] matches Next::Act(a) && fs_answers(
            list,
            canon,
            link,
            read,
            a,
            replies[i],
        ) && link_search_step(states[i], replies[i], states[i + 1], nexts[i + 1]))
}

spec fn link_inv(
    list: spec_fn(Seq<char>) -> Option<Seq<Seq<char>>>,
    canon: spec_fn(Seq<char>) -> Option<Seq<char>>,
    s: LinkSearch,
    n: Next<Option<String>>,
    i: int,
    home: Seq<char>,
    root: Seq<char>,
    exe: Seq<char>,
    k: int,
) -> bool {
    let es = list(local_bin(home)).unwrap();
    &&& s.root@ == root
    &&& link_search_wf(s)
    &&& 0 <= i <= 2 * k + 4
    &&& match s.phase {
        LinkPhase::Listing => i == 0 && (n matches Next::Act(Action::ListDir { path }) && path@
            == local_bin(home)),
        LinkPhase::Canonical => i == 1 && strings(s.entries@) == es && n == Next::<
            Option<String>,
        >::Act(Action::Canonicalize { path: s.root }),
        LinkPhase::Target => {
            &&& strings(s.entries@) == es
            &&& s.canonical_root@ == canonical_or(canon, root)
            &&& s.index <= k
            &&& i <= 2 + 2 * s.index
            &&& n == Next::<Option<String>>::Act(
                Action::ReadLinkTarget { path: s.entries@[s.index as int] },
            )
        },
        LinkPhase::Resolving => {
            &&& strings(s.entries@) == es
            &&& s.canonical_root@ == canonical_or(canon, root)
            &&& s.index <= k
            &&& i <= 3 + 2 * s.index
            &&& n == Next::<Option<String>>::Act(Action::Canonicalize { path: s.target })
            &&& s.index == k ==> s.target@ == exe
        },
        LinkPhase::Over => n matches Next::Done(Some(p)) && es.contains(p@),
    }
}

proof fn lemma_link_step(
    list: spec_fn(Seq<char>) -> Option<Seq<Seq<char>>>,
    canon: spec_fn(Seq<char>) -> Option<Seq<char>>,
    link: spec_fn(Seq<char>) -> Option<Seq<char>>,
    read: spec_fn(Seq<char>) -> Option<Seq<char>>,
    s: LinkSearch,
    a: Action,
    reply: Reply,
    t: LinkSearch,
    n: Next<Option<String>>,
    home: Seq<char>,
    root: Seq<char>,
    app_name: Seq<char>,
    exe: Seq<char>,
    k: int,
    j: int,
)
    requires
        link_inv(list, canon, s, Next::Act(a), j, home, root, exe, k),
        fs_answers(list, canon, link, read, a, reply),
        link_search_step(s, reply, t, n),
        list(local_bin(home)) matches Some(es) && 0 <= k < es.len() && es[k] == join(
            local_bin(home),
            sanitized_stem(app_name),
        ),
        link(join(local_bin(home), sanitized_stem(app_name))) == Some(exe),
        is_absolute(exe),
        path_starts_with(canonical_or(canon, exe), canonical_or(canon, root)),
    ensures
        link_inv(list, canon, t, n, j + 1, home, root, exe, k),
{
    let es = list(local_bin(home)).unwrap();
    match s.phase {
        LinkPhase::Listing => {
            assert(link_inv(list, canon, t, n, j + 1, home, root, exe, k));
        },
        LinkPhase::Canonical => {
            assert(s.entries@.len() == es.len());
            if let Reply::Canonical(r) = reply {
                assert(resolved_or(r, s.root)@ == canonical_or(canon, root));
            }
            assert(link_inv(list, canon, t, n, j + 1, home, root, exe, k));
        },
        LinkPhase::Target => {
            let e = s.entries@[s.index as int];
            assert(strings(s.entries@)[s.index as int] == e@);
            assert(s.entries@.len() == es.len());
            assert(a == Action::ReadLinkTarget { path: e });
            if s.index == k {
                assert(e@ == join(local_bin(home), sanitized_stem(app_name)));
            }
            match reply {
                Reply::LinkTarget(None) => {
                    assert(s.index < k);
                    assert(s.entries@.len() == s.entries.len());
                    assert(t.phase == LinkPhase::Target && t.index == s.index + 1);
                },
                Reply::LinkTarget(Some(tg)) => {
                    assert(t.phase == LinkPhase::Resolving && t.index == s.index);
                    if s.index == k {
                        assert(tg@ == exe);
                        assert(link_target(e@, exe) == exe);
                    }
                },
                _ => {},
            }
            assert(link_inv(list, canon, t, n, j + 1, home, root, exe, k));
        },
        LinkPhase::Resolving => {
            assert(s.entries@.len() == es.len());
            assert(a == Action::Canonicalize { path: s.target });
            if let Reply::Canonical(r) = reply {
                let c = resolved_or(r, s.target)@;
                assert(c == canonical_or(canon, s.target@));
                if path_starts_with(c, s.canonical_root@) {
                    let found = s.entries@[s.index as int];
                    assert(strings(s.entries@)[s.index as int] == found@);
                    assert(es.contains(found@));
                    assert(t.phase == LinkPhase::Over);
                } else {
                    assert(s.index < k);
                    assert(s.entries@.len() == s.entries.len());
                    assert(t.phase == LinkPhase::Target && t.index == s.index + 1);
                }
            }
            assert(link_inv(list, canon, t, n, j + 1, home, root, exe, k));
        },
        LinkPhase::Over => {},
    }
}

proof fn lemma_link_run(
    list: spec_fn(Seq<char>) -> Option<Seq<Seq<char>>>,
    canon: spec_fn(Seq<char>) -> Option<Seq<char>>,
    link: spec_fn(Seq<char>) -> Option<Seq<char>>,
    read: spec_fn(Seq<char>) -> Option<Seq<char>>,
    states: Seq<LinkSearch>,
    nexts: Seq<Next<Option<String>>>,
    replies: Seq<Reply>,
    home: Seq<char>,
    root: Seq<char>,
    app_name: Seq<char>,
    exe: Seq<char>,
    k: int,
    i: int,
)
    requires
        link_search_start(Some(home), root, states[0], nexts[0]),
        link_run(list, canon, link, read, states, nexts, replies),
        list(local_bin(home)) matches Some(es) && 0 <= k < es.len() && es[k] == join(
            local_bin(home),
            sanitized_stem(app_name),
        ),
        link(join(local_bin(home), sanitized_stem(app_name))) == Some(exe),
        is_absolute(exe),
        path_starts_with(canonical_or(canon, exe), canonical_or(canon, root)),
        0 <= i <= replies.len(),
    ensures
        link_inv(list, canon, states[i], nexts[i], i, home, root, exe, k),
    decreases i,
{
    if i > 0 {
        let j = i - 1;
        lemma_link_run(list, canon, link, read, states, nexts, replies, home, root, app_name, exe, k, j);
        assert(nexts[j] matches Next::Act(a) && fs_answers(list, canon, link, read, a, replies[j])
            && link_search_step(states[j], replies[j], states[i], nexts[i]));
        if let Next::Act(a) = nexts[j] {
            lemma_link_step(
                list,
                canon,
                link,
                read,
                states[j],
                a,
                replies[j],
                states[i],
                nexts[i],
                home,
                root,
                app_name,
                exe,
                k,
                j,
            );
        }
    }
}

/// The command-line link an installation made is found again: given a
/// home directory, when `~/.local/bin` lists the link that
/// `install::link_to_local_bin` places for `app_name`, that link points
/// at the absolute path of the executable, and the executable resolves
/// under the installation root (both compared in canonical form where
/// they have one), every run of the link search for that root against an
/// unchanged file system ends within `2k + 4` replies, where `k` is the
/// link's place in the listing, and never ends with nothing found: what
/// it finds is one of the listed entries.
pub proof fn law_made_link_found(
    list: spec_fn(Seq<char>) -> Option<Seq<Seq<char>>>,
    canon: spec_fn(Seq<char>) -> Option<Seq<char>>,
    link: spec_fn(Seq<char>) -> Option<Seq<char>>,
    read: spec_fn(Seq<char>) -> Option<Seq<char>>,
    states: Seq<LinkSearch>,
    nexts: Seq<Next<Option<String>>>,
    replies: Seq<Reply>,
    home: Seq<char>,
    root: Seq<char>,
    app_name: Seq<char>,
    exe: Seq<char>,
    k: int,
)
    requires
        link_search_start(Some(home), root, states[0], nexts[0]),
        link_run(list, canon, link, read, states, nexts, replies),
        list(local_bin(home)) matches Some(es) && 0 <= k < es.len() && es[k] == join(
            local_bin(home),
            sanitized_stem(app_name),
        ),
        link(join(local_bin(home), sanitized_stem(app_name))) == Some(exe),
        is_absolute(exe),
        path_starts_with(canonical_or(canon, exe), canonical_or(canon, root)),
    ensures
        replies.len() <= 2 * k + 4,
        nexts.last() != Next::<Option<String>>::Done(None),
        nexts.last() matches Next::Done(Some(p)) ==> list(local_bin(home)).unwrap().contains(p@),
{
    lemma_link_run(
        list,
        canon,
        link,
        read,
        states,
        nexts,
        replies,
        home,
        root,
        app_name,
        exe,
        k,
        replies.len() as int,
    );
    assert(nexts.last() == nexts[replies.len() as int]);
}

// ---------------------------------------------------------------------------
// The launcher
// ---------------------------------------------------------------------------

/// A run of a launcher search: its states and what it asked or gave
/// after each, each request answered by the file system.
pub open spec fn launcher_run(
    list: spec_fn(Seq<char>) -> Option<Seq<Seq<char>>>,
    canon: spec_fn(Seq<char>) -> Option<Seq<char>>,
    link: spec_fn(Seq<char>) -> Option<Seq<char>>,
    read: spec_fn(Seq<char>) -> Option<Seq<char>>,
    states: Seq<LauncherSearch>,
    nexts: Seq<Next<Option<String>>>,
    replies: Seq<Reply>,
) -> bool {
    &&& states.len() == replies.len() + 1
    &&& nexts.len() == replies.len() + 1
    &&& forall|i: int|
        0 <= i < replies.len() ==> (#[trigger] nexts[i] matches Next::Act(a) && fs_answers(
            list,
            canon,
            link,
            read,
            a,
            replies[i],
        ) && launcher_search_step(states[i], replies[i], states[i + 1], nexts[i + 1]))
}

/// The path of the launcher written for `display` (see
/// `desktop::entry_plan_ok`).
pub open spec fn launcher_path(home: Seq<char>, display: Seq<char>) -> Seq<char> {
    join(applications_dir(home), sanitized_stem(display) + ".desktop"@)
}

/// The file system holds, at the `k`-th entry of the launcher directory,
/// the launcher written for an executable whose path holds the canonical
/// root from index `at` on.
pub open spec fn launcher_in_place(
    list: spec_fn(Seq<char>) -> Option<Seq<Seq<char>>>,
    canon: spec_fn(Seq<char>) -> Option<Seq<char>>,
    read: spec_fn(Seq<char>) -> Option<Seq<char>>,
    home: Seq<char>,
    root: Seq<char>,
    display: Seq<char>,
    exe: Seq<char>,
    kind: PackageKind,
    terminal: bool,
    categories: Seq<char>,
    icon: Option<Seq<char>>,
    at: int,
    k: int,
) -> bool {
    &&& list(applications_dir(home)) matches Some(es) && 0 <= k < es.len() && es[k]
        == launcher_path(home, display)
    &&& read(launcher_path(home, display)) matches Some(c) && written_launcher(
        c,
        display,
        exe,
        kind,
        terminal,
        categories,
        icon,
        canonical_or(canon, root),
        at,
    )
}

spec fn launcher_inv(
    list: spec_fn(Seq<char>) -> Option<Seq<Seq<char>>>,
    canon: spec_fn(Seq<char>) -> Option<Seq<char>>,
    s: LauncherSearch,
    n: Next<Option<String>>,
    i: int,
    home: Seq<char>,
    root: Seq<char>,
    k: int,
) -> bool {
    let es = list(applications_dir(home)).unwrap();
    &&& s.root@ == root
    &&& launcher_search_wf(s)
    &&& 0 <= i <= k + 3
    &&& match s.phase {
        LauncherPhase::Listing => i == 0 && (n matches Next::Act(Action::ListDir { path }) && path@
            == applications_dir(home)),
        LauncherPhase::Canonical => i == 1 && strings(s.entries@) == es && n == Next::<
            Option<String>,
        >::Act(Action::Canonicalize { path: s.root }),
        LauncherPhase::Reading => {
            &&& strings(s.entries@) == es
            &&& s.canonical_root@ == canonical_or(canon, root)
            &&& s.index <= k
            &&& i <= 2 + s.index
            &&& n == Next::<Option<String>>::Act(
                Action::ReadText { path: s.entries@[s.index as int] },
            )
        },
        LauncherPhase::Over => n matches Next::Done(Some(p)) && es.contains(p@),
    }
}

proof fn lemma_launcher_step(
    list: spec_fn(Seq<char>) -> Option<Seq<Seq<char>>>,
    canon: spec_fn(Seq<char>) -> Option<Seq<char>>,
    link: spec_fn(Seq<char>) -> Option<Seq<char>>,
    read: spec_fn(Seq<char>) -> Option<Seq<char>>,
    s: LauncherSearch,
    a: Action,
    reply: Reply,
    t: LauncherSearch,
    n: Next<Option<String>>,
    home: Seq<char>,
    root: Seq<char>,
    display: Seq<char>,
    exe: Seq<char>,
    kind: PackageKind,
    terminal: bool,
    categories: Seq<char>,
    icon: Option<Seq<char>>,
    at: int,
    k: int,
    j: int,
)
    requires
        launcher_inv(list, canon, s, Next::Act(a), j, home, root, k),
        fs_answers(list, canon, link, read, a, reply),
        launcher_search_step(s, reply, t, n),
        launcher_in_place(list, canon, read, home, root, display, exe, kind, terminal, categories, icon, at, k),
    ensures
        launcher_inv(list, canon, t, n, j + 1, home, root, k),
{
    let es = list(applications_dir(home)).unwrap();
    law_launcher_path_is_launcher_file(home, display);
    match s.phase {
        LauncherPhase::Listing => {},
        LauncherPhase::Canonical => {
            assert(s.entries@.len() == es.len());
            assert(strings(s.entries@)[k] == s.entries@[k]@);
            assert(s.entries@.len() == s.entries.len());
            if let Reply::Canonical(r) = reply {
                assert(resolved_or(r, s.root)@ == canonical_or(canon, root));
                lemma_first_launcher_reaches(s.entries@, 0, k);
            }
        },
        LauncherPhase::Reading => {
            let e = s.entries@[s.index as int];
            assert(strings(s.entries@)[s.index as int] == e@);
            assert(s.entries@.len() == es.len());
            assert(s.entries@.len() == s.entries.len());
            assert(strings(s.entries@)[k] == s.entries@[k]@);
            assert(a == Action::ReadText { path: e });
            if let Reply::Text(r) = reply {
                if r matches Ok(c) && launcher_references_root(c@, s.canonical_root@) {
                    assert(es.contains(e@));
                } else {
                    if s.index == k {
                        let c = read(launcher_path(home, display)).unwrap();
                        law_written_launcher_found(
                            display,
                            exe,
                            kind,
                            terminal,
                            categories,
                            icon,
                            canonical_or(canon, root),
                            at,
                        );
                        assert(false);
                    }
                    lemma_first_launcher_reaches(s.entries@, s.index + 1, k);
                }
            }
        },
        LauncherPhase::Over => {},
    }
}

proof fn lemma_launcher_run(
    list: spec_fn(Seq<char>) -> Option<Seq<Seq<char>>>,
    canon: spec_fn(Seq<char>) -> Option<Seq<char>>,
    link: spec_fn(Seq<char>) -> Option<Seq<char>>,
    read: spec_fn(Seq<char>) -> Option<Seq<char>>,
    states: Seq<LauncherSearch>,
    nexts: Seq<Next<Option<String>>>,
    replies: Seq<Reply>,
    home: Seq<char>,
    root: Seq<char>,
    display: Seq<char>,
    exe: Seq<char>,
    kind: PackageKind,
    terminal: bool,
    categories: Seq<char>,
    icon: Option<Seq<char>>,
    at: int,
    k: int,
    i: int,
)
    requires
        launcher_search_start(Some(home), root, states[0], nexts[0]),
        launcher_run(list, canon, link, read, states, nexts, replies),
        launcher_in_place(list, canon, read, home, root, display, exe, kind, terminal, categories, icon, at, k),
        0 <= i <= replies.len(),
    ensures
        launcher_inv(list, canon, states[i], nexts[i], i, home, root, k),
    decreases i,
{
    if i > 0 {
        let j = i - 1;
        lemma_launcher_run(
            list,
            canon,
            link,
            read,
            states,
            nexts,
            replies,
            home,
            root,
            display,
            exe,
            kind,
            terminal,
            categories,
            icon,
            at,
            k,
            j,
        );
        assert(nexts[j] matches Next::Act(a) && fs_answers(list, canon, link, read, a, replies[j])
            && launcher_search_step(states[j], replies[j], states[i], nexts[i]));
        if let Next::Act(a) = nexts[j] {
            lemma_launcher_step(
                list,
                canon,
                link,
                read,
                states[j],
                a,
                replies[j],
                states[i],
                nexts[i],
                home,
                root,
                display,
                exe,
                kind,
                terminal,
                categories,
                icon,
                at,
                k,
                j,
            );
        }
    }
}

/// The launcher an installation wrote is found again: given a home
/// directory, when the launcher directory lists, as its `k`-th entry, the
/// launcher that `desktop::create_desktop_entry` places for `display`,
/// and that file reads as the text written for an executable whose path
/// holds the canonical installation root (under the conditions of
/// `laws::law_written_launcher_found`), every run of the launcher search
/// for that root against an unchanged file system ends within `k + 3`
/// replies and never ends with nothing found: what it finds is one of the
/// listed entries.
pub proof fn law_written_launcher_found_again(
    list: spec_fn(Seq<char>) -> Option<Seq<Seq<char>>>,
    canon: spec_fn(Seq<char>) -> Option<Seq<char>>,
    link: spec_fn(Seq<char>) -> Option<Seq<char>>,
    read: spec_fn(Seq<char>) -> Option<Seq<char>>,
    states: Seq<LauncherSearch>,
    nexts: Seq<Next<Option<String>>>,
    replies: Seq<Reply>,
    home: Seq<char>,
    root: Seq<char>,
    display: Seq<char>,
    exe: Seq<char>,
    kind: PackageKind,
    terminal: bool,
    categories: Seq<char>,
    icon: Option<Seq<char>>,
    at: int,
    k: int,
)
    requires
        launcher_search_start(Some(home), root, states[0], nexts[0]),
        launcher_run(list, canon, link, read, states, nexts, replies),
        launcher_in_place(list, canon, read, home, root, display, exe, kind, terminal, categories, icon, at, k),
    ensures
        replies.len() <= k + 3,
        nexts.last() != Next::<Option<String>>::Done(None),
        nexts.last() matches Next::Done(Some(p)) ==> list(applications_dir(home)).unwrap().contains(
            p@,
        ),
{
    lemma_launcher_run(
        list,
        canon,
        link,
        read,
        states,
        nexts,
        replies,
        home,
        root,
        display,
        exe,
        kind,
        terminal,
        categories,
        icon,
        at,
        k,
        replies.len() as int,
    );
    assert(nexts.last() == nexts[replies.len() as int]);
}

} // verus!
