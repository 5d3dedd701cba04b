//! What an extracted package offers: executables ranked by how likely they
//! start the application, icon files ranked by how likely they are its
//! icon, and the launcher settings suggested from a packaged launcher.
use vstd::prelude::*;
use crate::desktop::DesktopMetadata;
use crate::errors::InstallError;
use crate::names::file_name_or;
use crate::order::{chars_order, comps_order, lemma_comps_order_antisym, lemma_comps_order_trans};
use crate::paths::{
    components, components_of, extension, extension_chars, file_name_chars, file_stem,
    file_stem_chars, has_component, has_component_chars, is_absolute, join, join_chars,
    strip_prefix, strip_prefix_chars, views,
};
use crate::sorting::{is_order, key_ord, lemma_sorted_by_map, sorted_by, stable_sort};
use crate::text::{
    chars_contains, chars_eq, chars_eq_ignore_ascii_case, chars_ends_with, contains, ends_with,
    eq_ignore_ascii_case, from_chars, lowercase, owned, to_chars, to_lowercase, trim, trim_chars,
};

verus! {

/// The characters of each string.
pub open spec fn strings(v: Seq<String>) -> Seq<Seq<char>> {
    v.map_values(|s: String| s@)
}

// ---------------------------------------------------------------------------
// Executables
// ---------------------------------------------------------------------------

/// An executable found in an extracted package.
#[derive(Debug, Clone, PartialEq, Eq)]
pub struct ExecutableCandidate {
    pub path: String,
    pub relative_path: String,
    pub file_name: String,
    pub score: u8,
}

/// How likely an executable starts the application, lower first: inside a
/// `bin` directory 0, plain 1, a shell script 2, a launcher 3. `lower` is
/// the lowercase file name.
pub open spec fn score_for(lower: Seq<char>, path: Seq<char>) -> u8 {
    if ends_with(lower, ".desktop"@) {
        3
    } else if ends_with(lower, ".sh"@) {
        2
    } else if has_component(path, "bin"@) {
        0
    } else {
        1
    }
}

/// How likely the executable at `path` starts the application.
pub open spec fn score_of(path: Seq<char>) -> u8 {
    score_for(lowercase(file_name_or(path, Seq::empty())), path)
}

fn ends_with_word(s: &[char], word: &str) -> (r: bool)
    ensures
        r == ends_with(s@, word@),
{
    let w = to_chars(word);
    chars_ends_with(s, w.as_slice())
}

/// How likely the executable at `path` starts the application, given its
/// lowercase file name `lower_name` (see `score_for`).
pub fn score_from_name(lower_name: &str, path: &str) -> (r: u8)
    ensures
        r == score_for(lower_name@, path@),
{
    let l = to_chars(lower_name);
    if ends_with_word(l.as_slice(), ".desktop") {
        3
    } else if ends_with_word(l.as_slice(), ".sh") {
        2
    } else {
        let p = to_chars(path);
        let bin = to_chars("bin");
        if has_component_chars(p.as_slice(), bin.as_slice()) {
            0
        } else {
            1
        }
    }
}

fn name_or(path: &[char], fallback: &str) -> (r: String)
    ensures
        r@ == file_name_or(path@, fallback@),
{
    match file_name_chars(path) {
        Some(n) => from_chars(n.as_slice()),
        None => owned(fallback),
    }
}

/// How likely the executable at `path` starts the application (see
/// `score_of`).
pub fn candidate_score(path: &str) -> (r: u8)
    ensures
        r == score_of(path@),
{
    let p = to_chars(path);
    let name = name_or(p.as_slice(), "");
    proof {
        reveal_strlit("");
    }
    assert(""@ =~= Seq::<char>::empty());
    let lower = to_lowercase(name.as_str());
    score_from_name(lower.as_str(), path)
}

/// `path` shown relative to `root`, or `fallback` when it is not under it.
pub open spec fn relative_or(path: Seq<char>, root: Seq<char>, fallback: Seq<char>) -> Seq<char> {
    match strip_prefix(path, root) {
        Some(r) => r,
        None => fallback,
    }
}

fn relative_or_exec(path: &[char], root: &[char], fallback: &String) -> (r: String)
    ensures
        r@ == relative_or(path@, root@, fallback@),
{
    match strip_prefix_chars(path, root) {
        Some(r) => from_chars(r.as_slice()),
        None => fallback.clone(),
    }
}

/// The executable at `path` as offered to the user: its path, its path
/// relative to `root` (or its file name), its file name (or `executable`)
/// and its score.
pub fn executable_candidate(path: &str, root: &str) -> (r: Result<
    ExecutableCandidate,
    InstallError,
>)
    ensures
        r matches Ok(c) && c.path@ == path@ && c.file_name@ == file_name_or(path@, "executable"@)
            && c.relative_path@ == relative_or(path@, root@, c.file_name@) && c.score == score_of(
            path@,
        ),
{
    let p = to_chars(path);
    let rt = to_chars(root);
    let file_name = name_or(p.as_slice(), "executable");
    let relative_path = relative_or_exec(p.as_slice(), rt.as_slice(), &file_name);
    Ok(
        ExecutableCandidate {
            path: owned(path),
            relative_path,
            file_name,
            score: candidate_score(path),
        },
    )
}

/// An icon file found in an extracted package.
#[derive(Debug, Clone, PartialEq, Eq)]
pub struct IconCandidate {
    pub path: String,
    pub relative_path: String,
    pub file_name: String,
}

/// The icon file at `path` as offered to the user: its path, its path
/// relative to `root` (or its file name) and its file name (or `icon`).
pub fn icon_candidate(path: &str, root: &str) -> (r: Result<IconCandidate, InstallError>)
    ensures
        r matches Ok(c) && c.path@ == path@ && c.file_name@ == file_name_or(path@, "icon"@)
            && c.relative_path@ == relative_or(path@, root@, c.file_name@),
{
    let p = to_chars(path);
    let rt = to_chars(root);
    let file_name = name_or(p.as_slice(), "icon");
    let relative_path = relative_or_exec(p.as_slice(), rt.as_slice(), &file_name);
    Ok(IconCandidate { path: owned(path), relative_path, file_name })
}

// ---------------------------------------------------------------------------
// Files by extension
// ---------------------------------------------------------------------------

/// The extension of `path` is one of `extensions`, ignoring ASCII case.
pub open spec fn has_extension_in(path: Seq<char>, extensions: Seq<Seq<char>>) -> bool {
    match extension(path) {
        Some(e) => exists|i: int| 0 <= i < extensions.len() && eq_ignore_ascii_case(e, #[trigger] extensions[i]),
        None => false,
    }
}

/// The characters of each string slice.
pub open spec fn str_views(v: Seq<&str>) -> Seq<Seq<char>> {
    v.map_values(|e: &str| e@)
}

/// The files of `files` whose extension is one of `extensions`, in order.
pub open spec fn with_extension(files: Seq<Seq<char>>, extensions: Seq<Seq<char>>) -> Seq<Seq<char>>
    decreases files.len(),
{
    if files.len() == 0 {
        Seq::empty()
    } else if has_extension_in(files.last(), extensions) {
        with_extension(files.drop_last(), extensions).push(files.last())
    } else {
        with_extension(files.drop_last(), extensions)
    }
}

/// Paths compared component by component.
pub open spec fn path_order() -> spec_fn(Seq<char>, Seq<char>) -> int {
    |p: Seq<char>, q: Seq<char>| comps_order(components(p), components(q))
}

pub proof fn lemma_path_order()
    ensures
        is_order(path_order()),
{
    let ord = path_order();
    assert forall|a: Seq<char>, b: Seq<char>| #[trigger] ord(a, b) == -ord(b, a) && -1 <= ord(a, b)
        <= 1 by {
        lemma_comps_order_antisym(components(a), components(b));
    }
    assert forall|a: Seq<char>, b: Seq<char>, c: Seq<char>|
        #![trigger ord(a, b), ord(b, c)]
        ord(a, b) <= 0 && ord(b, c) <= 0 implies ord(a, c) <= 0 by {
        lemma_comps_order_trans(components(a), components(b), components(c));
    }
}

/// The text of a keyed string.
pub open spec fn item_text<K>() -> spec_fn((K, String)) -> Seq<char> {
    |it: (K, String)| it.1@
}

/// A path keyed by its components.
pub open spec fn path_keyed() -> spec_fn((Vec<Vec<char>>, String)) -> bool {
    |it: (Vec<Vec<char>>, String)| views(it.0@) == components(it.1@)
}

fn extension_matches(path: &[char], extensions: &[&str]) -> (r: bool)
    ensures
        r == has_extension_in(path@, str_views(extensions@)),
{
    let ghost exts = str_views(extensions@);
    match extension_chars(path) {
        None => false,
        Some(e) => {
            let n = extensions.len();
            for i in 0..n
                invariant
                    n == extensions@.len(),
                    exts == str_views(extensions@),
                    extension(path@) == Some(e@),
                    forall|k: int| 0 <= k < i ==> !eq_ignore_ascii_case(e@, #[trigger] exts[k]),
            {
                let x = to_chars(extensions[i]);
                assert(exts[i as int] == x@);
                if chars_eq_ignore_ascii_case(e.as_slice(), x.as_slice()) {
                    assert(eq_ignore_ascii_case(e@, exts[i as int]));
                    return true;
                }
            }
            false
        },
    }
}

/// The files whose extension is one of `extensions` (ignoring ASCII
/// case), sorted by path as `Path` compares. `files` are the regular files
/// found under a directory.
pub fn find_files_by_extension(files: &Vec<String>, extensions: &[&str]) -> (r: Vec<String>)
    ensures
        strings(r@) == sorted_by(
            with_extension(strings(files@), str_views(extensions@)),
            path_order(),
        ),
{
    let ghost exts = str_views(extensions@);
    let ghost fs = strings(files@);
    let n = files.len();
    let mut items: Vec<(Vec<Vec<char>>, String)> = Vec::new();
    assert(fs.take(0) =~= Seq::<Seq<char>>::empty());
    for i in 0..n
        invariant
            n == files@.len(),
            fs == strings(files@),
            exts == str_views(extensions@),
            items@.map_values(item_text::<Vec<Vec<char>>>()) == with_extension(fs.take(i as int), exts),
            forall|k: int| 0 <= k < items@.len() ==> path_keyed()(#[trigger] items@[k]),
    {
        assert(fs.take(i + 1).drop_last() =~= fs.take(i as int));
        assert(fs.take(i + 1).last() == files@[i as int]@);
        let p = to_chars(files[i].as_str());
        let ghost before = items@;
        if extension_matches(p.as_slice(), extensions) {
            let cs = components_of(p.as_slice());
            items.push((cs, files[i].clone()));
            assert(items@.map_values(item_text::<Vec<Vec<char>>>()) =~= before.map_values(
                item_text::<Vec<Vec<char>>>(),
            ).push(files@[i as int]@));
        }
    }
    assert(fs.take(n as int) =~= fs);
    let ghost unsorted = items@;
    proof {
        assert forall|a: (Vec<Vec<char>>, String), b: (Vec<Vec<char>>, String)|
            path_keyed()(a) && path_keyed()(b) implies #[trigger] key_ord::<
            Vec<Vec<char>>,
            String,
        >()(a, b) == path_order()(item_text::<Vec<Vec<char>>>()(a), item_text::<Vec<Vec<char>>>()(b)) by {}
        lemma_sorted_by_map(
            unsorted,
            key_ord::<Vec<Vec<char>>, String>(),
            item_text::<Vec<Vec<char>>>(),
            path_order(),
            path_keyed(),
        );
    }
    let sorted = stable_sort(items);
    texts_of(sorted)
}

/// The strings of keyed strings, in order.
fn texts_of<K>(items: Vec<(K, String)>) -> (r: Vec<String>)
    ensures
        strings(r@) == items@.map_values(item_text::<K>()),
{
    let ghost sv = items@;
    let m = items.len();
    let mut out: Vec<String> = Vec::new();
    let mut j: usize = 0;
    let mut rest = items;
    assert(sv.skip(0) =~= sv);
    while j < m
        invariant
            m == sv.len(),
            rest@ == sv.skip(j as int),
            j <= m,
            strings(out@) == sv.map_values(item_text::<K>()).take(j as int),
        decreases m - j,
    {
        let (_, path) = rest.remove(0);
        assert(path@ == sv[j as int].1@);
        let ghost before = out@;
        let ghost pv = path@;
        out.push(path);
        assert(strings(out@) =~= strings(before).push(pv));
        assert(item_text::<K>()(sv[j as int]) == pv);
        assert(sv.map_values(item_text::<K>()).take(j + 1) =~= sv.map_values(item_text::<K>()).take(
            j as int,
        ).push(pv));
        assert(rest@ =~= sv.skip(j + 1));
        j += 1;
    }
    assert(sv.map_values(item_text::<K>()).take(m as int) =~= sv.map_values(item_text::<K>()));
    out
}

/// The extensions of launcher files.
pub open spec fn launcher_extensions() -> Seq<Seq<char>> {
    seq!["desktop"@]
}

/// The launcher files among `files`, sorted by path.
pub fn find_desktop_files(files: &Vec<String>) -> (r: Vec<String>)
    ensures
        strings(r@) == sorted_by(
            with_extension(strings(files@), launcher_extensions()),
            path_order(),
        ),
{
    let exts: [&str; 1] = ["desktop"];
    assert(str_views(exts@) =~= launcher_extensions());
    find_files_by_extension(files, &exts)
}

/// The extensions of icon files.
pub open spec fn icon_extensions() -> Seq<Seq<char>> {
    seq!["png"@, "svg"@, "xpm"@, "ico"@]
}

/// The first rank of an icon path (given lowercase): inside an `apps`
/// directory first.
pub open spec fn apps_rank(lower: Seq<char>) -> u8 {
    if contains(lower, "/apps/"@) {
        0
    } else {
        1
    }
}

/// The second rank of an icon path (given lowercase): 256 or 512 pixels
/// first, then 128, then the rest.
pub open spec fn size_rank(lower: Seq<char>) -> u8 {
    if contains(lower, "256"@) || contains(lower, "512"@) {
        0
    } else if contains(lower, "128"@) {
        1
    } else {
        2
    }
}

fn contains_word(s: &[char], word: &str) -> (r: bool)
    ensures
        r == contains(s@, word@),
{
    let w = to_chars(word);
    chars_contains(s, w.as_slice())
}

/// The two ranks of an icon path, given its lowercase form.
pub fn icon_ranks(lower: &str) -> (r: (u8, u8))
    ensures
        r == (apps_rank(lower@), size_rank(lower@)),
{
    let l = to_chars(lower);
    let a: u8 = if contains_word(l.as_slice(), "/apps/") {
        0
    } else {
        1
    };
    let b: u8 = if contains_word(l.as_slice(), "256") || contains_word(l.as_slice(), "512") {
        0
    } else if contains_word(l.as_slice(), "128") {
        1
    } else {
        2
    };
    (a, b)
}

/// Two numbers, then a string, compared in that order.
pub open spec fn ranked_order(a: (u8, u8, Seq<char>), b: (u8, u8, Seq<char>)) -> int {
    if a.0 < b.0 {
        -1
    } else if a.0 > b.0 {
        1
    } else if a.1 < b.1 {
        -1
    } else if a.1 > b.1 {
        1
    } else {
        chars_order(a.2, b.2)
    }
}

/// The rank of an icon path: its two ranks, then its lowercase form.
pub open spec fn icon_rank(path: Seq<char>) -> (u8, u8, Seq<char>) {
    let lower = lowercase(path);
    (apps_rank(lower), size_rank(lower), lower)
}

/// Icon paths compared by rank.
pub open spec fn icon_order() -> spec_fn(Seq<char>, Seq<char>) -> int {
    |p: Seq<char>, q: Seq<char>| ranked_order(icon_rank(p), icon_rank(q))
}

/// An icon path keyed by its rank.
pub open spec fn icon_keyed() -> spec_fn(((u8, u8, Vec<char>), String)) -> bool {
    |it: ((u8, u8, Vec<char>), String)|
        (it.0.0, it.0.1, it.0.2@) == icon_rank(it.1@)
}

/// The most icons offered.
pub open spec fn icon_limit() -> nat {
    50
}

/// The icon files among `files` (regular files under the extracted
/// package): sorted by path, then stably by rank, and at most 50 of them.
pub open spec fn icon_choice(files: Seq<Seq<char>>) -> Seq<Seq<char>> {
    let ranked = sorted_by(
        sorted_by(with_extension(files, icon_extensions()), path_order()),
        icon_order(),
    );
    if ranked.len() <= icon_limit() {
        ranked
    } else {
        ranked.take(icon_limit() as int)
    }
}

/// The icon files offered for a package (see `icon_choice`).
pub fn find_icon_candidates(files: &Vec<String>) -> (r: Vec<String>)
    ensures
        strings(r@) == icon_choice(strings(files@)),
{
    let exts: [&str; 4] = ["png", "svg", "xpm", "ico"];
    assert(str_views(exts@) =~= icon_extensions());
    let found = find_files_by_extension(files, &exts);
    let ghost fv = strings(found@);
    let n = found.len();
    let mut items: Vec<((u8, u8, Vec<char>), String)> = Vec::new();
    for i in 0..n
        invariant
            n == found@.len(),
            fv == strings(found@),
            items@.map_values(item_text::<(u8, u8, Vec<char>)>()) == fv.take(i as int),
            forall|k: int| 0 <= k < items@.len() ==> icon_keyed()(#[trigger] items@[k]),
    {
        let lower = to_lowercase(found[i].as_str());
        let (a, b) = icon_ranks(lower.as_str());
        let lv = to_chars(lower.as_str());
        let ghost before = items@;
        items.push(((a, b, lv), found[i].clone()));
        assert(items@.map_values(item_text::<(u8, u8, Vec<char>)>()) =~= before.map_values(
            item_text::<(u8, u8, Vec<char>)>(),
        ).push(fv[i as int]));
        assert(fv.take(i + 1) =~= fv.take(i as int).push(fv[i as int]));
    }
    assert(fv.take(n as int) =~= fv);
    let ghost unsorted = items@;
    proof {
        assert forall|a: ((u8, u8, Vec<char>), String), b: ((u8, u8, Vec<char>), String)|
            icon_keyed()(a) && icon_keyed()(b) implies #[trigger] key_ord::<
            (u8, u8, Vec<char>),
            String,
        >()(a, b) == icon_order()(
            item_text::<(u8, u8, Vec<char>)>()(a),
            item_text::<(u8, u8, Vec<char>)>()(b),
        ) by {}
        lemma_sorted_by_map(
            unsorted,
            key_ord::<(u8, u8, Vec<char>), String>(),
            item_text::<(u8, u8, Vec<char>)>(),
            icon_order(),
            icon_keyed(),
        );
    }
    let sorted = stable_sort(items);
    let mut out = texts_of(sorted);
    if out.len() > 50 {
        let ghost ov = out@;
        out.truncate(50);
        assert(strings(out@) =~= strings(ov).take(50));
    }
    out
}

/// Executable paths compared by score, then by file name.
pub open spec fn executable_order() -> spec_fn(Seq<char>, Seq<char>) -> int {
    |p: Seq<char>, q: Seq<char>|
        if score_of(p) < score_of(q) {
            -1
        } else if score_of(p) > score_of(q) {
            1
        } else {
            chars_order(file_name_or(p, Seq::empty()), file_name_or(q, Seq::empty()))
        }
}

/// An executable path keyed by its score and file name.
pub open spec fn executable_keyed() -> spec_fn(((u8, Vec<char>), String)) -> bool {
    |it: ((u8, Vec<char>), String)|
        it.0.0 == score_of(it.1@) && it.0.1@ == file_name_or(it.1@, Seq::empty())
}

/// Executables in the order they are offered: stably by score, then by
/// file name. `paths` are the executable files found under the extracted
/// package, in the order they were found.
pub fn order_executables(paths: Vec<String>) -> (r: Vec<String>)
    ensures
        strings(r@) == sorted_by(strings(paths@), executable_order()),
{
    let ghost pv = strings(paths@);
    let n = paths.len();
    let mut items: Vec<((u8, Vec<char>), String)> = Vec::new();
    proof {
        reveal_strlit("");
    }
    for i in 0..n
        invariant
            n == paths@.len(),
            pv == strings(paths@),
            ""@ == Seq::<char>::empty(),
            items@.map_values(item_text::<(u8, Vec<char>)>()) == pv.take(i as int),
            forall|k: int| 0 <= k < items@.len() ==> executable_keyed()(#[trigger] items@[k]),
    {
        let p = to_chars(paths[i].as_str());
        let name = name_or(p.as_slice(), "");
        let nv = to_chars(name.as_str());
        let score = candidate_score(paths[i].as_str());
        let ghost before = items@;
        items.push(((score, nv), paths[i].clone()));
        assert(items@.map_values(item_text::<(u8, Vec<char>)>()) =~= before.map_values(
            item_text::<(u8, Vec<char>)>(),
        ).push(pv[i as int]));
        assert(pv.take(i + 1) =~= pv.take(i as int).push(pv[i as int]));
    }
    assert(pv.take(n as int) =~= pv);
    let ghost unsorted = items@;
    proof {
        assert forall|a: ((u8, Vec<char>), String), b: ((u8, Vec<char>), String)|
            executable_keyed()(a) && executable_keyed()(b) implies #[trigger] key_ord::<
            (u8, Vec<char>),
            String,
        >()(a, b) == executable_order()(
            item_text::<(u8, Vec<char>)>()(a),
            item_text::<(u8, Vec<char>)>()(b),
        ) by {}
        lemma_sorted_by_map(
            unsorted,
            key_ord::<(u8, Vec<char>), String>(),
            item_text::<(u8, Vec<char>)>(),
            executable_order(),
            executable_keyed(),
        );
    }
    let sorted = stable_sort(items);
    texts_of(sorted)
}

/// `c` offers the executable at `path` found under `root` (see
/// `executable_candidate`).
pub open spec fn is_executable_candidate(c: ExecutableCandidate, path: Seq<char>, root: Seq<char>) -> bool {
    &&& c.path@ == path
    &&& c.file_name@ == file_name_or(path, "executable"@)
    &&& c.relative_path@ == relative_or(path, root, c.file_name@)
    &&& c.score == score_of(path)
}

/// The executables at `paths` as offered to the user, in order.
pub fn executable_candidates(paths: &Vec<String>, root: &str) -> (r: Vec<ExecutableCandidate>)
    ensures
        r@.len() == paths@.len(),
        forall|i: int|
            0 <= i < paths@.len() ==> is_executable_candidate(#[trigger] r@[i], paths@[i]@, root@),
{
    let mut out: Vec<ExecutableCandidate> = Vec::new();
    let n = paths.len();
    for i in 0..n
        invariant
            n == paths@.len(),
            out@.len() == i,
            forall|k: int| 0 <= k < i ==> is_executable_candidate(#[trigger] out@[k], paths@[k]@, root@),
    {
        match executable_candidate(paths[i].as_str(), root) {
            Ok(c) => out.push(c),
            Err(_) => {
                assert(false);
            },
        }
    }
    out
}

/// `c` offers the icon file at `path` found under `root` (see
/// `icon_candidate`).
pub open spec fn is_icon_candidate(c: IconCandidate, path: Seq<char>, root: Seq<char>) -> bool {
    &&& c.path@ == path
    &&& c.file_name@ == file_name_or(path, "icon"@)
    &&& c.relative_path@ == relative_or(path, root, c.file_name@)
}

/// The icon files at `paths` as offered to the user, in order.
pub fn icon_candidates(paths: &Vec<String>, root: &str) -> (r: Vec<IconCandidate>)
    ensures
        r@.len() == paths@.len(),
        forall|i: int| 0 <= i < paths@.len() ==> is_icon_candidate(#[trigger] r@[i], paths@[i]@, root@),
{
    let mut out: Vec<IconCandidate> = Vec::new();
    let n = paths.len();
    for i in 0..n
        invariant
            n == paths@.len(),
            out@.len() == i,
            forall|k: int| 0 <= k < i ==> is_icon_candidate(#[trigger] out@[k], paths@[k]@, root@),
    {
        match icon_candidate(paths[i].as_str(), root) {
            Ok(c) => out.push(c),
            Err(_) => {
                assert(false);
            },
        }
    }
    out
}

/// The paths of regular files found under a directory, each given with
/// its permission bits.
pub open spec fn file_paths(files: Seq<(String, u32)>) -> Seq<Seq<char>> {
    files.map_values(|f: (String, u32)| f.0@)
}

/// The paths of the files whose permission bits let anyone execute them,
/// in order.
pub open spec fn executable_paths(files: Seq<(String, u32)>) -> Seq<Seq<char>>
    decreases files.len(),
{
    if files.len() == 0 {
        Seq::empty()
    } else if files.last().1 & 0o111u32 != 0 {
        executable_paths(files.drop_last()).push(files.last().0@)
    } else {
        executable_paths(files.drop_last())
    }
}

/// The paths of the files (see `file_paths`).
pub fn paths_of_files(files: &Vec<(String, u32)>) -> (r: Vec<String>)
    ensures
        strings(r@) == file_paths(files@),
{
    let mut out: Vec<String> = Vec::new();
    let n = files.len();
    for i in 0..n
        invariant
            n == files@.len(),
            strings(out@) == file_paths(files@.take(i as int)),
    {
        let ghost before = out@;
        out.push(files[i].0.clone());
        assert(strings(out@) =~= strings(before).push(files@[i as int].0@));
        assert(files@.take(i + 1) =~= files@.take(i as int).push(files@[i as int]));
        assert(file_paths(files@.take(i + 1)) =~= file_paths(files@.take(i as int)).push(
            files@[i as int].0@,
        ));
    }
    assert(files@.take(n as int) =~= files@);
    out
}

/// The paths of the executable files (see `executable_paths`).
pub fn executable_files(files: &Vec<(String, u32)>) -> (r: Vec<String>)
    ensures
        strings(r@) == executable_paths(files@),
{
    let mut out: Vec<String> = Vec::new();
    let n = files.len();
    for i in 0..n
        invariant
            n == files@.len(),
            strings(out@) == executable_paths(files@.take(i as int)),
    {
        assert(files@.take(i + 1).drop_last() =~= files@.take(i as int));
        assert(files@.take(i + 1).last() == files@[i as int]);
        if crate::install::is_executable_mode(files[i].1) {
            let ghost before = out@;
            out.push(files[i].0.clone());
            assert(strings(out@) =~= strings(before).push(files@[i as int].0@));
        }
    }
    assert(files@.take(n as int) =~= files@);
    out
}

// ---------------------------------------------------------------------------
// Launcher suggestion
// ---------------------------------------------------------------------------

/// The index of the first icon whose file name has the stem `stem`.
pub open spec fn stem_match(icons: Seq<IconCandidate>, stem: Seq<char>) -> Option<int>
    decreases icons.len(),
{
    if icons.len() == 0 {
        None
    } else if file_stem(icons[0].file_name@) == Some(stem) {
        Some(0)
    } else {
        match stem_match(icons.drop_first(), stem) {
            Some(k) => Some(k + 1),
            None => None,
        }
    }
}

pub proof fn lemma_stem_match(icons: Seq<IconCandidate>, stem: Seq<char>)
    ensures
        match stem_match(icons, stem) {
            Some(k) => 0 <= k < icons.len() && file_stem(icons[k].file_name@) == Some(stem)
                && forall|j: int| 0 <= j < k ==> file_stem(#[trigger] icons[j].file_name@) != Some(stem),
            None => forall|j: int|
                0 <= j < icons.len() ==> file_stem(#[trigger] icons[j].file_name@) != Some(stem),
        },
    decreases icons.len(),
{
    if icons.len() > 0 && file_stem(icons[0].file_name@) != Some(stem) {
        lemma_stem_match(icons.drop_first(), stem);
        assert forall|j: int| 0 < j < icons.len() implies icons[j] == icons.drop_first()[j - 1] by {}
    }
}

/// The icon a launcher's `Icon` value names: nothing for a blank value; the
/// value itself when it is an absolute path that exists; the value under
/// the package root when that exists; otherwise the first icon candidate
/// with the value's stem. `value_exists` and `rooted_exists` say whether
/// the file system reports the value and the value under `root` as
/// existing paths.
pub open spec fn resolved_icon(
    root: Seq<char>,
    value: Seq<char>,
    icons: Seq<IconCandidate>,
    value_exists: bool,
    rooted_exists: bool,
) -> Option<Seq<char>> {
    if trim(value).len() == 0 {
        None
    } else if is_absolute(value) && value_exists {
        Some(value)
    } else if rooted_exists {
        Some(join(root, value))
    } else {
        let stem = match file_stem(value) {
            Some(s) => s,
            None => value,
        };
        match stem_match(icons, stem) {
            Some(k) => Some(icons[k].path@),
            None => None,
        }
    }
}

/// The icon a launcher's `Icon` value names (see `resolved_icon`).
pub fn resolve_icon_value(
    root: &str,
    value: &str,
    icons: &[IconCandidate],
    value_exists: bool,
    rooted_exists: bool,
) -> (r: Option<String>)
    ensures
        crate::paths::opt_view(r) == resolved_icon(root@, value@, icons@, value_exists, rooted_exists),
{
    let v = to_chars(value);
    let t = trim_chars(v.as_slice());
    if t.len() == 0 {
        return None;
    }
    if v.len() > 0 && v[0] == '/' && value_exists {
        return Some(owned(value));
    }
    if rooted_exists {
        let rv = to_chars(root);
        return Some(from_chars(join_chars(rv.as_slice(), v.as_slice()).as_slice()));
    }
    let stem = match file_stem_chars(v.as_slice()) {
        Some(s) => s,
        None => v,
    };
    proof {
        lemma_stem_match(icons@, stem@);
    }
    let n = icons.len();
    for i in 0..n
        invariant
            n == icons@.len(),
            trim(value@).len() > 0,
            !(is_absolute(value@) && value_exists),
            !rooted_exists,
            stem@ == match file_stem(value@) {
                Some(s) => s,
                None => value@,
            },
            forall|j: int| 0 <= j < i ==> file_stem(#[trigger] icons@[j].file_name@) != Some(stem@),
    {
        let f = to_chars(icons[i].file_name.as_str());
        let matched = match file_stem_chars(f.as_slice()) {
            Some(s) => chars_eq(s.as_slice(), stem.as_slice()),
            None => false,
        };
        if matched {
            proof {
                lemma_stem_match(icons@, stem@);
                match stem_match(icons@, stem@) {
                    Some(k) => {
                        assert(k == i);
                    },
                    None => {},
                }
            }
            return Some(icons[i].path.clone());
        }
    }
    None
}

/// The launcher settings suggested for a package.
#[derive(Debug, Clone, PartialEq, Eq)]
pub struct DesktopSuggestion {
    pub name: String,
    pub icon_path: Option<String>,
    pub icon_relative_path: Option<String>,
    pub terminal: bool,
    pub categories: String,
}

/// The suggested icon: the one the packaged launcher names, or else the
/// first icon candidate.
pub open spec fn suggested_icon(
    root: Seq<char>,
    metadata: crate::desktop::MetadataView,
    icons: Seq<IconCandidate>,
    value_exists: bool,
    rooted_exists: bool,
) -> Option<Seq<char>> {
    let named = match metadata.icon {
        Some(v) => resolved_icon(root, v, icons, value_exists, rooted_exists),
        None => None,
    };
    match named {
        Some(p) => Some(p),
        None => if icons.len() > 0 {
            Some(icons[0].path@)
        } else {
            None
        },
    }
}

/// `r` is the launcher settings suggested from a launcher's metadata: its
/// name (or `fallback_name`), the suggested icon and its path relative to
/// `root`, its terminal flag (or false) and its categories (or
/// `Utility;`).
pub open spec fn suggestion_ok(
    r: DesktopSuggestion,
    root: Seq<char>,
    fallback_name: Seq<char>,
    icons: Seq<IconCandidate>,
    metadata: crate::desktop::MetadataView,
    value_exists: bool,
    rooted_exists: bool,
) -> bool {
    let icon = suggested_icon(root, metadata, icons, value_exists, rooted_exists);
    &&& crate::paths::opt_view(r.icon_path) == icon
    &&& crate::paths::opt_view(r.icon_relative_path) == match icon {
        Some(p) => strip_prefix(p, root),
        None => None,
    }
    &&& r.name@ == match metadata.name {
        Some(n) => n,
        None => fallback_name,
    }
    &&& r.terminal == match metadata.terminal {
        Some(t) => t,
        None => false,
    }
    &&& r.categories@ == match metadata.categories {
        Some(c) => c,
        None => "Utility;"@,
    }
}

/// The launcher settings suggested from a package's launcher metadata:
/// its name (or `fallback_name`), the suggested icon and its path relative
/// to `root`, its terminal flag (or false) and its categories (or
/// `Utility;`). `icon_value_exists` and `icon_rooted_exists` are what the
/// file system reports for the launcher's `Icon` value, as for
/// `resolve_icon_value`.
pub fn read_desktop_suggestion(
    root: &str,
    fallback_name: &str,
    icons: &[IconCandidate],
    metadata: &DesktopMetadata,
    icon_value_exists: bool,
    icon_rooted_exists: bool,
) -> (r: DesktopSuggestion)
    ensures
        suggestion_ok(r, root@, fallback_name@, icons@, metadata@, icon_value_exists, icon_rooted_exists),
{
    let named = match &metadata.icon {
        Some(v) => resolve_icon_value(root, v.as_str(), icons, icon_value_exists, icon_rooted_exists),
        None => None,
    };
    let icon_path = match named {
        Some(p) => Some(p),
        None => if icons.len() > 0 {
            Some(icons[0].path.clone())
        } else {
            None
        },
    };
    let icon_relative_path = match &icon_path {
        Some(p) => {
            let pv = to_chars(p.as_str());
            let rv = to_chars(root);
            match strip_prefix_chars(pv.as_slice(), rv.as_slice()) {
                Some(rel) => Some(from_chars(rel.as_slice())),
                None => None,
            }
        },
        None => None,
    };
    let name = match &metadata.name {
        Some(n) => n.clone(),
        None => owned(fallback_name),
    };
    let terminal = match metadata.terminal {
        Some(t) => t,
        None => false,
    };
    let categories = match &metadata.categories {
        Some(c) => c.clone(),
        None => owned("Utility;"),
    };
    DesktopSuggestion { name, icon_path, icon_relative_path, terminal, categories }
}

} // verus!
