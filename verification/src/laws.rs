//! Properties that hold across the installer's operations: names are clean
//! file stems, launcher values stay on one line, every path the installer
//! writes lies under the directory it was meant for, and everything it
//! ranks comes out sorted and complete.
//!
//! "Lies under" is meant lexically throughout: the directory's components
//! are a prefix of the path's components (`Path::starts_with`), before any
//! `.`, `..` or symbolic link is resolved. A clean file stem may be `.` or
//! `..`: a package named `...zip` gets the application name `..`, whose
//! installation root lies lexically under the installation directory and
//! resolves to its parent. For every other name the root is a child of
//! the installation directory (`law_clean_child`).
use vstd::prelude::*;
use crate::candidates::{
    executable_order, icon_choice, icon_extensions, icon_order, icon_rank, lemma_stem_match,
    path_order, lemma_path_order, ranked_order, resolved_icon, score_for, score_of, stem_match,
    with_extension, IconCandidate,
};
use crate::desktop::{
    applications_dir, cleaned, entry_text, exec_command_text, exec_path_text,
    exec_references_root, is_launcher_file, launcher_references_root, lemma_split_lines_concat,
    lemma_split_lines_len, needs_quotes, normalized_categories, read_lines, split_lines, strip_cr,
    stripped, text_lines, without_line_breaks, MetadataView,
};
use crate::model::PackageKind;
use crate::install::{
    app_order, archive_install, link_copy, local_bin, removal_check, selection_check,
    SelectionProbe,
};
use crate::errors::InstallError;
use crate::names::{
    app_name_for, fallback_app_name, file_name_or, install_dir_result, is_stem_char,
    preview_dir_name, sanitized_stem, stem_char, stem_chars,
};
use crate::order::{lemma_chars_order_antisym, lemma_chars_order_trans};
use crate::paths::{
    components, cur_dir, file_name, file_stem, has_component, is_absolute, join, kept, lemma_join_components,
    lemma_join_starts_with, lemma_strip_relative, names_component, parent_dir, path_starts_with,
    lemma_split_slashless, strip_prefix,
};
use crate::sorting::{is_order, is_sorted_by, lemma_sorted_by, sorted_by};
use crate::text::{
    contains, ends_with, eq_ignore_ascii_case, first_index_of, is_white_space, lowercase, last_index_of, lemma_first_index_of, lemma_last_index_of, lemma_replace_absent,
    lemma_replace_concat, lemma_trim_fixed, lemma_trim_set, occurs_at, replace, starts_with, trim,
    trim_end_set, trim_set, trim_start_set, CharSet,
};

verus! {

// ---------------------------------------------------------------------------
// Names
// ---------------------------------------------------------------------------

/// A clean file stem: not empty, made of ASCII letters, digits, `-`, `_`
/// and `.`, and neither starting nor ending with `-`. `.` and `..` are
/// clean stems.
pub open spec fn is_clean_stem(s: Seq<char>) -> bool {
    &&& s.len() > 0
    &&& forall|i: int| 0 <= i < s.len() ==> is_stem_char(#[trigger] s[i])
    &&& s[0] != '-'
    &&& s.last() != '-'
}

proof fn lemma_fallback_clean()
    ensures
        is_clean_stem(fallback_app_name()),
{
    reveal_strlit("application");
    assert(fallback_app_name().len() == 11);
}

/// Every name made a file stem is a clean file stem.
pub proof fn law_sanitized_stem_is_clean(value: Seq<char>)
    ensures
        is_clean_stem(sanitized_stem(value)),
{
    let m = stem_chars(value);
    let t = trim_set(m, CharSet::Only('-'));
    if t.len() == 0 {
        lemma_fallback_clean();
    } else {
        let i = lemma_trim_set(m, CharSet::Only('-'));
        assert forall|k: int| 0 <= k < t.len() implies is_stem_char(#[trigger] t[k]) by {
            assert(t[k] == m[i + k]);
            assert(m[i + k] == stem_char(value[i + k]));
        }
    }
}

/// Making a clean file stem a file stem changes nothing.
pub proof fn law_sanitized_stem_of_clean(s: Seq<char>)
    requires
        is_clean_stem(s),
    ensures
        sanitized_stem(s) == s,
{
    assert(stem_chars(s) =~= s) by {
        assert forall|i: int| 0 <= i < s.len() implies stem_chars(s)[i] == s[i] by {
            assert(is_stem_char(s[i]));
        }
    }
    lemma_trim_fixed(s, CharSet::Only('-'));
}

/// Making a name a file stem twice is the same as once.
pub proof fn law_sanitize_idempotent(value: Seq<char>)
    ensures
        sanitized_stem(sanitized_stem(value)) == sanitized_stem(value),
{
    law_sanitized_stem_is_clean(value);
    law_sanitized_stem_of_clean(sanitized_stem(value));
}

/// The name given to an installed application is a clean file stem.
pub proof fn law_app_name_is_clean(name: Option<Seq<char>>)
    ensures
        is_clean_stem(app_name_for(name)),
{
    let name = match name {
        Some(n) => n,
        None => fallback_app_name(),
    };
    law_sanitized_stem_is_clean(
        crate::names::without_package_suffix(name, crate::text::lowercase(name)),
    );
}

/// A clean file stem is a relative path.
pub proof fn law_clean_stem_is_relative(s: Seq<char>)
    requires
        is_clean_stem(s),
    ensures
        !is_absolute(s),
{
    assert(is_stem_char(s[0]));
}

/// The launcher written for an application is a launcher file: its name
/// is a clean file stem followed by `.desktop`.
pub proof fn law_launcher_path_is_launcher_file(home: Seq<char>, display: Seq<char>)
    ensures
        is_launcher_file(join(applications_dir(home), sanitized_stem(display) + ".desktop"@)),
{
    reveal_strlit(".desktop");
    reveal_strlit("desktop");
    let ext = ".desktop"@;
    assert(ext =~= seq!['.', 'd', 'e', 's', 'k', 't', 'o', 'p']);
    let stem = sanitized_stem(display);
    law_sanitized_stem_is_clean(display);
    let b = stem + ext;
    let n = stem.len() as int;
    assert forall|i: int| 0 <= i < b.len() implies #[trigger] b[i] != '/' by {
        if i < n {
            assert(b[i] == stem[i]);
            assert(is_stem_char(stem[i]));
        } else {
            assert(b[i] == ext[i - n]);
        }
    }
    assert(b.len() != cur_dir().len());
    assert(b.len() != parent_dir().len());
    crate::paths::lemma_file_name_join(applications_dir(home), b);
    lemma_last_index_of(b, '.');
    assert(b[n] == '.');
    assert forall|j: int| n < j < b.len() implies b[j] != '.' by {
        assert(b[j] == ext[j - n]);
    }
    match last_index_of(b, '.') {
        Some(k) => {
            assert(k == n);
            assert(b.skip(k + 1) =~= "desktop"@);
        },
        None => {
            assert(false);
        },
    }
}

/// A directory named by a clean file stem other than `.` and `..` is a
/// child of the directory it is joined to: its components are those of
/// the parent followed by the name itself, so it stays under the parent
/// once `.` and `..` are resolved too.
pub proof fn law_clean_child(dir: Seq<char>, name: Seq<char>)
    requires
        dir.len() > 0,
        is_clean_stem(name),
        name != cur_dir(),
        name != parent_dir(),
    ensures
        components(join(dir, name)) == components(dir).push(name),
{
    law_clean_stem_is_relative(name);
    lemma_join_components(dir, name);
    assert forall|i: int| 0 <= i < name.len() implies #[trigger] name[i] != '/' by {
        assert(is_stem_char(name[i]));
    }
    lemma_split_slashless(name);
    assert(names_component(name));
    assert(kept(seq![name]) == kept(seq![name].drop_last()).push(name));
    assert(seq![name].drop_last() =~= Seq::<Seq<char>>::empty());
    assert(components(dir) + seq![name] =~= components(dir).push(name));
}

// ---------------------------------------------------------------------------
// Launcher values
// ---------------------------------------------------------------------------

proof fn lemma_without_line_breaks(s: Seq<char>)
    ensures
        forall|i: int|
            0 <= i < without_line_breaks(s).len() ==> #[trigger] without_line_breaks(s)[i] != '\n'
                && without_line_breaks(s)[i] != '\r',
        (forall|i: int| 0 <= i < s.len() ==> #[trigger] s[i] != '\n' && s[i] != '\r')
            ==> without_line_breaks(s) == s,
    decreases s.len(),
{
    if s.len() > 0 {
        lemma_without_line_breaks(s.drop_last());
        let p = without_line_breaks(s.drop_last());
        if !(s.last() == '\n' || s.last() == '\r') {
            assert forall|i: int| 0 <= i < without_line_breaks(s).len() implies #[trigger] without_line_breaks(s)[i] != '\n'
                && without_line_breaks(s)[i] != '\r' by {
                if i < p.len() {
                    assert(without_line_breaks(s)[i] == p[i]);
                }
            }
        }
        if forall|i: int| 0 <= i < s.len() ==> #[trigger] s[i] != '\n' && s[i] != '\r' {
            assert forall|i: int| 0 <= i < s.drop_last().len() implies #[trigger] s.drop_last()[i] != '\n'
                && s.drop_last()[i] != '\r' by {
                assert(s.drop_last()[i] == s[i]);
            }
            assert(s[s.len() - 1] != '\n' && s[s.len() - 1] != '\r');
            assert(without_line_breaks(s) =~= s);
        }
    }
}

/// A value fit for a launcher line.
pub open spec fn is_one_line_value(v: Seq<char>) -> bool {
    &&& forall|i: int| 0 <= i < v.len() ==> #[trigger] v[i] != '\n' && v[i] != '\r'
    &&& v.len() > 0 ==> !is_white_space(v[0]) && !is_white_space(v.last())
}

/// A cleaned value holds no line break and no white space at either end.
pub proof fn law_cleaned_is_one_line(value: Seq<char>)
    ensures
        is_one_line_value(cleaned(value)),
{
    let w = without_line_breaks(value);
    lemma_without_line_breaks(value);
    let c = cleaned(value);
    let i = lemma_trim_set(w, CharSet::WhiteSpace);
    assert forall|k: int| 0 <= k < c.len() implies #[trigger] c[k] != '\n' && c[k] != '\r' by {
        assert(c[k] == w[i + k]);
    }
}

/// Cleaning a cleaned value changes nothing.
pub proof fn law_clean_idempotent(value: Seq<char>)
    ensures
        cleaned(cleaned(value)) == cleaned(value),
{
    let c = cleaned(value);
    law_cleaned_is_one_line(value);
    lemma_without_line_breaks(c);
    lemma_trim_fixed(c, CharSet::WhiteSpace);
}

/// The `Categories` value is a one-line value that ends with `;`, and
/// normalizing it again changes nothing.
pub proof fn law_categories(value: Seq<char>)
    ensures
        is_one_line_value(normalized_categories(value)),
        normalized_categories(value).last() == ';',
        normalized_categories(normalized_categories(value)) == normalized_categories(value),
{
    reveal_strlit("Utility");
    let c = cleaned(value);
    law_cleaned_is_one_line(value);
    let cats = if c.len() == 0 {
        "Utility"@
    } else {
        c
    };
    assert(is_one_line_value(cats));
    let n = normalized_categories(value);
    if crate::text::ends_with(cats, seq![';']) {
        assert(cats.subrange(cats.len() - 1, cats.len() as int)[0] == cats[cats.len() - 1]);
    }
    assert(n.len() > 0);
    assert(n.last() == ';');
    assert(is_one_line_value(n)) by {
        if !crate::text::ends_with(cats, seq![';']) {
            assert(n == cats.push(';'));
            assert(n[0] == cats[0]);
        }
    }
    lemma_without_line_breaks(n);
    lemma_trim_fixed(n, CharSet::WhiteSpace);
    assert(cleaned(n) == n);
    assert(crate::text::ends_with(n, seq![';'])) by {
        assert(n.subrange(n.len() - 1, n.len() as int) =~= seq![';']);
    }
}

// ---------------------------------------------------------------------------
// Where the installer writes
// ---------------------------------------------------------------------------

/// An installation directory the installer accepts is an absolute path.
pub proof fn law_install_dir_absolute(value: Seq<char>, home: Option<Seq<char>>)
    ensures
        install_dir_result(value, home) matches Ok(p) ==> is_absolute(p) && p.len() > 0,
{
}

/// The scratch directory of a preview lies lexically under the temporary directory.
pub proof fn law_preview_dir_inside(temp_dir: Seq<char>, app_name: Seq<char>, pid: nat, millis: nat)
    ensures
        path_starts_with(join(temp_dir, preview_dir_name(app_name, pid, millis)), temp_dir),
{
    reveal_strlit("auto-installer-");
    assert(preview_dir_name(app_name, pid, millis)[0] == 'a');
    lemma_join_starts_with(temp_dir, preview_dir_name(app_name, pid, millis));
}

/// The command-line link of an application lies in the user's
/// `~/.local/bin`.
pub proof fn law_link_inside_local_bin(home: Seq<char>, app_name: Seq<char>)
    ensures
        path_starts_with(join(local_bin(home), sanitized_stem(app_name)), local_bin(home)),
{
    law_sanitized_stem_is_clean(app_name);
    law_clean_stem_is_relative(sanitized_stem(app_name));
    lemma_join_starts_with(local_bin(home), sanitized_stem(app_name));
}

/// The launcher of an application lies in the user's launcher directory.
pub proof fn law_launcher_inside_applications(home: Seq<char>, display: Seq<char>)
    ensures
        path_starts_with(
            join(applications_dir(home), sanitized_stem(display) + ".desktop"@),
            applications_dir(home),
        ),
{
    law_sanitized_stem_is_clean(display);
    let f = sanitized_stem(display) + ".desktop"@;
    assert(f[0] == sanitized_stem(display)[0]);
    assert(is_stem_char(sanitized_stem(display)[0]));
    lemma_join_starts_with(applications_dir(home), f);
}

/// A file name is a relative path.
pub proof fn law_file_name_relative(path: Seq<char>)
    ensures
        file_name(path) matches Some(n) ==> !is_absolute(n),
{
    crate::paths::lemma_body_parts_plain(path);
    if let Some(n) = file_name(path) {
        let b = crate::paths::body_parts(path);
        assert(n == b[b.len() - 1]);
        if n[0] == '/' {
            assert(n.contains('/'));
        }
    }
}

/// An AppImage, or an icon copied into the installation root, lands
/// lexically under the directory it is copied into.
pub proof fn law_named_copy_inside(source: Seq<char>, directory: Seq<char>)
    ensures
        file_name(source) matches Some(n) ==> path_starts_with(join(directory, n), directory),
{
    law_file_name_relative(source);
    if let Some(n) = file_name(source) {
        lemma_join_starts_with(directory, n);
    }
}

/// The executable of an installed archive lies lexically under the installation
/// root, when the extraction directory resolves to an absolute path.
pub proof fn law_archive_executable_inside(
    preview_root: Option<Seq<char>>,
    selected: Option<Seq<char>>,
    install_root: Seq<char>,
    probe: SelectionProbe,
)
    requires
        probe.canonical_root matches Some(r) ==> is_absolute(r@),
    ensures
        archive_install(preview_root, selected, install_root, probe) matches Ok((_, exe))
            ==> path_starts_with(exe, install_root),
{
    if let Ok((croot, exe)) = archive_install(preview_root, selected, install_root, probe) {
        let root = preview_root.unwrap();
        let sel = selected.unwrap();
        let (r, csel) = selection_check(trim(root), trim(sel), probe).unwrap();
        assert(is_absolute(r));
        assert(components(r).len() > 0);
        lemma_strip_relative(csel, r);
        lemma_join_starts_with(install_root, strip_prefix(csel, r).unwrap());
    }
}

/// A symbolic link whose target resolves outside the extracted package is
/// refused.
pub proof fn law_escaping_link_refused(
    source_root: Seq<char>,
    destination_root: Seq<char>,
    target: Seq<char>,
    canonical: String,
)
    requires
        !path_starts_with(canonical@, source_root),
    ensures
        link_copy(source_root, destination_root, target, Ok(canonical)) == Err::<
            Seq<char>,
            InstallError,
        >(InstallError::LinkEscapesArchive),
{
}

/// A copied symbolic link with an absolute target points lexically under the
/// destination; one with a relative target keeps it.
pub proof fn law_copied_link_inside(
    source_root: Seq<char>,
    destination_root: Seq<char>,
    target: Seq<char>,
    canonical: Result<String, String>,
)
    requires
        is_absolute(source_root),
    ensures
        link_copy(source_root, destination_root, target, canonical) matches Ok(t) ==> (if is_absolute(
            target,
        ) {
            path_starts_with(t, destination_root)
        } else {
            t == target
        }),
{
    if let Ok(t) = link_copy(source_root, destination_root, target, canonical) {
        if is_absolute(target) {
            let c = canonical.unwrap();
            assert(components(source_root).len() > 0);
            lemma_strip_relative(c@, source_root);
            lemma_join_starts_with(destination_root, strip_prefix(c@, source_root).unwrap());
        }
    }
}

/// The directory removed for an application lies lexically under the installation
/// directory.
pub proof fn law_removal_inside(canonical_dir: Result<String, String>, canonical_root: Option<Seq<char>>)
    ensures
        removal_check(canonical_dir, canonical_root) matches Ok(root) ==> path_starts_with(
            root,
            canonical_dir.unwrap()@,
        ),
{
}

// ---------------------------------------------------------------------------
// Rankings
// ---------------------------------------------------------------------------

pub proof fn lemma_executable_order()
    ensures
        is_order(executable_order()),
{
    let ord = executable_order();
    assert forall|a: Seq<char>, b: Seq<char>| #[trigger] ord(a, b) == -ord(b, a) && -1 <= ord(a, b)
        <= 1 by {
        lemma_chars_order_antisym(file_name_or(a, Seq::empty()), file_name_or(b, Seq::empty()));
    }
    assert forall|a: Seq<char>, b: Seq<char>, c: Seq<char>|
        #![trigger ord(a, b), ord(b, c)]
        ord(a, b) <= 0 && ord(b, c) <= 0 implies ord(a, c) <= 0 by {
        lemma_chars_order_antisym(file_name_or(a, Seq::empty()), file_name_or(b, Seq::empty()));
        lemma_chars_order_antisym(file_name_or(b, Seq::empty()), file_name_or(c, Seq::empty()));
        if score_of(a) == score_of(b) && score_of(b) == score_of(c) {
            lemma_chars_order_trans(
                file_name_or(a, Seq::empty()),
                file_name_or(b, Seq::empty()),
                file_name_or(c, Seq::empty()),
            );
        }
    }
}

pub proof fn lemma_icon_order()
    ensures
        is_order(icon_order()),
{
    let ord = icon_order();
    assert forall|a: Seq<char>, b: Seq<char>| #[trigger] ord(a, b) == -ord(b, a) && -1 <= ord(a, b)
        <= 1 by {
        lemma_chars_order_antisym(icon_rank(a).2, icon_rank(b).2);
    }
    assert forall|a: Seq<char>, b: Seq<char>, c: Seq<char>|
        #![trigger ord(a, b), ord(b, c)]
        ord(a, b) <= 0 && ord(b, c) <= 0 implies ord(a, c) <= 0 by {
        let (x, y, z) = (icon_rank(a), icon_rank(b), icon_rank(c));
        lemma_chars_order_antisym(x.2, y.2);
        lemma_chars_order_antisym(y.2, z.2);
        if x.0 == y.0 && y.0 == z.0 && x.1 == y.1 && y.1 == z.1 {
            lemma_chars_order_trans(x.2, y.2, z.2);
        }
    }
}

pub proof fn lemma_app_order()
    ensures
        is_order(app_order()),
{
    let ord = app_order();
    assert forall|a: crate::install::InstalledApp, b: crate::install::InstalledApp| #[trigger] ord(
        a,
        b,
    ) == -ord(b, a) && -1 <= ord(a, b) <= 1 by {
        lemma_chars_order_antisym(a.app_name@, b.app_name@);
    }
    assert forall|
        a: crate::install::InstalledApp,
        b: crate::install::InstalledApp,
        c: crate::install::InstalledApp,
    |
        #![trigger ord(a, b), ord(b, c)]
        ord(a, b) <= 0 && ord(b, c) <= 0 implies ord(a, c) <= 0 by {
        lemma_chars_order_trans(a.app_name@, b.app_name@, c.app_name@);
    }
}

/// Files found by extension come out sorted by path, each file of the
/// right kind exactly as often as it was found.
pub proof fn law_files_sorted(files: Seq<Seq<char>>, extensions: Seq<Seq<char>>)
    ensures
        is_sorted_by(sorted_by(with_extension(files, extensions), path_order()), path_order()),
        sorted_by(with_extension(files, extensions), path_order()).to_multiset() == with_extension(
            files,
            extensions,
        ).to_multiset(),
{
    lemma_path_order();
    lemma_sorted_by(with_extension(files, extensions), path_order());
}

/// Executables come out sorted by score and name, each exactly as often as
/// it was found.
pub proof fn law_executables_sorted(paths: Seq<Seq<char>>)
    ensures
        is_sorted_by(sorted_by(paths, executable_order()), executable_order()),
        sorted_by(paths, executable_order()).to_multiset() == paths.to_multiset(),
{
    lemma_executable_order();
    lemma_sorted_by(paths, executable_order());
}

/// Installed applications come out sorted by name, each exactly as often
/// as it was found.
pub proof fn law_apps_sorted(apps: Seq<crate::install::InstalledApp>)
    ensures
        is_sorted_by(sorted_by(apps, app_order()), app_order()),
        sorted_by(apps, app_order()).to_multiset() == apps.to_multiset(),
{
    lemma_app_order();
    lemma_sorted_by(apps, app_order());
}

/// At most 50 icons are offered, sorted by rank, and each is an icon file
/// that was found.
pub proof fn law_icon_choice(files: Seq<Seq<char>>)
    ensures
        icon_choice(files).len() <= 50,
        is_sorted_by(icon_choice(files), icon_order()),
        forall|i: int|
            0 <= i < icon_choice(files).len() ==> with_extension(files, icon_extensions()).contains(
                #[trigger] icon_choice(files)[i],
            ),
{
    broadcast use vstd::seq_lib::group_to_multiset_ensures;

    let found = with_extension(files, icon_extensions());
    let by_path = sorted_by(found, path_order());
    let ranked = sorted_by(by_path, icon_order());
    lemma_path_order();
    lemma_icon_order();
    lemma_sorted_by(found, path_order());
    lemma_sorted_by(by_path, icon_order());
    let chosen = icon_choice(files);
    assert forall|i: int| 0 <= i < chosen.len() implies found.contains(#[trigger] chosen[i]) by {
        assert(chosen[i] == ranked[i]);
        assert(ranked.contains(ranked[i]));
        assert(ranked.to_multiset().count(ranked[i]) > 0);
        assert(by_path.to_multiset().count(ranked[i]) > 0);
        assert(found.to_multiset().count(ranked[i]) > 0);
    }
    assert forall|i: int, j: int| 0 <= i < j < chosen.len() implies #[trigger] icon_order()(
        chosen[i],
        chosen[j],
    ) <= 0 by {
        assert(chosen[i] == ranked[i] && chosen[j] == ranked[j]);
    }
}

// ---------------------------------------------------------------------------
// The launcher of an installation is found again
// ---------------------------------------------------------------------------

/// A text free of a character.
pub open spec fn lacks(s: Seq<char>, c: char) -> bool {
    forall|i: int| 0 <= i < s.len() ==> #[trigger] s[i] != c
}

proof fn lemma_lacks_contains(s: Seq<char>, c: char)
    ensures
        lacks(s, c) <==> !s.contains(c),
{
    if !lacks(s, c) {
        let i = choose|i: int| 0 <= i < s.len() && s[i] == c;
        assert(s.contains(c));
    }
}

proof fn lemma_lacks_concat(a: Seq<char>, b: Seq<char>, c: char)
    requires
        lacks(a, c),
        lacks(b, c),
    ensures
        lacks(a + b, c),
{
    assert forall|i: int| 0 <= i < (a + b).len() implies #[trigger] (a + b)[i] != c by {
        if i < a.len() {
            assert((a + b)[i] == a[i]);
        } else {
            assert((a + b)[i] == b[i - a.len()]);
        }
    }
}

proof fn lemma_replace_lacks(s: Seq<char>, from: Seq<char>, to: Seq<char>, c: char)
    requires
        from.len() > 0,
        lacks(s, c),
        lacks(to, c),
    ensures
        lacks(replace(s, from, to), c),
{
    lemma_lacks_contains(s, c);
    lemma_lacks_contains(to, c);
    crate::text::lemma_replace_keeps_out(s, from, to, c);
    lemma_lacks_contains(replace(s, from, to), c);
}

/// Escaping the double quotes of a text free of backslashes, and reading
/// the escaped quotes back as plain ones, gives back the text; the escaped
/// form neither starts with a double quote nor ends with a backslash.
proof fn lemma_quote_escape(r: Seq<char>)
    requires
        lacks(r, '\\'),
    ensures
        replace(replace(r, seq!['"'], seq!['\\', '"']), seq!['\\', '"'], seq!['"']) == r,
        r.len() > 0 ==> {
            let er = replace(r, seq!['"'], seq!['\\', '"']);
            &&& er.len() > 0
            &&& er[0] != '"'
            &&& er.last() != '\\'
            &&& !is_white_space(r.last()) ==> !is_white_space(er.last())
            &&& lacks(r, '\n') ==> lacks(er, '\n')
        },
    decreases r.len(),
{
    let q = seq!['"'];
    let eq = seq!['\\', '"'];
    if r.len() > 0 {
        let rest = r.drop_first();
        assert(lacks(rest, '\\')) by {
            assert forall|k: int| 0 <= k < rest.len() implies #[trigger] rest[k] != '\\' by {
                assert(rest[k] == r[k + 1]);
            }
        }
        lemma_quote_escape(rest);
        let er_rest = replace(rest, q, eq);
        let er = replace(r, q, eq);
        let head = if r[0] == '"' {
            eq
        } else {
            seq![r[0]]
        };
        if r[0] == '"' {
            assert(r.subrange(0, 1) =~= q);
            assert(r.skip(1) =~= rest);
            assert(er == eq + er_rest);
            let s = eq + er_rest;
            assert(s.subrange(0, 2) =~= eq);
            assert(s.skip(2) =~= er_rest);
            assert(replace(s, eq, q) == q + replace(er_rest, eq, q));
            assert(q + rest =~= r);
        } else {
            assert(r.subrange(0, 1) != q) by {
                assert(r.subrange(0, 1)[0] == r[0]);
            }
            assert(er == seq![r[0]] + er_rest);
            let s = seq![r[0]] + er_rest;
            assert(r[0] != '\\');
            assert(!starts_with(s, eq)) by {
                if s.len() >= 2 {
                    assert(s.subrange(0, 2)[0] == r[0]);
                }
            }
            assert(s.drop_first() =~= er_rest);
            assert(replace(s, eq, q) == seq![r[0]] + replace(er_rest, eq, q));
            assert(seq![r[0]] + rest =~= r);
        }
        assert(er == head + er_rest);
        if rest.len() == 0 {
            assert(er_rest.len() == 0);
            assert(er =~= head);
        } else {
            assert(er.last() == er_rest.last());
            assert(rest.last() == r.last());
        }
        if lacks(r, '\n') {
            assert(lacks(rest, '\n')) by {
                assert forall|k: int| 0 <= k < rest.len() implies #[trigger] rest[k] != '\n' by {
                    assert(rest[k] == r[k + 1]);
                }
            }
            assert(lacks(head, '\n'));
            lemma_lacks_concat(head, er_rest, '\n');
        }
    }
}

/// Wherever the escaped form of `root` stands in a text, reading escaped
/// quotes back as plain ones leaves `root` in it.
proof fn lemma_unescape_keeps(p: Seq<char>, root: Seq<char>, w: Seq<char>)
    requires
        root.len() > 0,
        lacks(root, '\\'),
    ensures
        exec_references_root(p + replace(root, seq!['"'], seq!['\\', '"']) + w, root),
{
    let q = seq!['"'];
    let eq = seq!['\\', '"'];
    let er = replace(root, q, eq);
    lemma_quote_escape(root);
    assert(p + er + w =~= p + (er + w));
    assert((er + w)[0] == er[0]);
    lemma_replace_concat(p, er + w, eq, q);
    lemma_replace_concat(er, w, eq, q);
    let r = replace(p + er + w, eq, q);
    assert(r =~= replace(p, eq, q) + root + replace(w, eq, q));
    let k = replace(p, eq, q).len() as int;
    assert(r.subrange(k, k + root.len()) =~= root);
    assert(occurs_at(r, root, k));
}

/// Every text holds the empty text.
proof fn lemma_contains_empty(s: Seq<char>, root: Seq<char>)
    requires
        root.len() == 0,
    ensures
        contains(s, root),
{
    assert(s.subrange(0, 0) =~= root);
    assert(occurs_at(s, root, 0));
}

proof fn lemma_lacks_sub(s: Seq<char>, c: char, from: int, to: int)
    requires
        lacks(s, c),
        0 <= from <= to <= s.len(),
    ensures
        lacks(s.subrange(from, to), c),
{
    assert forall|k: int| 0 <= k < to - from implies #[trigger] s.subrange(from, to)[k] != c by {
        assert(s.subrange(from, to)[k] == s[from + k]);
    }
}

/// The `Exec` value written for an executable whose path holds `root`
/// from index `i` on, cut in three: the text before the root's trace, the
/// trace, and the rest. The trace is read back as `root` whatever part of
/// the rest follows it.
proof fn lemma_exec_split(exe: Seq<char>, kind: PackageKind, root: Seq<char>, i: int) -> (parts: (
    Seq<char>,
    Seq<char>,
    Seq<char>,
))
    requires
        root.len() > 0,
        lacks(root, '\\'),
        occurs_at(exe, root, i),
    ensures
        exec_command_text(exe, kind) == parts.0 + parts.1 + parts.2,
        parts.1.len() > 0,
        !is_white_space(root.last()) ==> !is_white_space(parts.1.last()),
        lacks(exe.take(i + root.len()), '\n') ==> lacks(parts.0, '\n') && lacks(parts.1, '\n'),
        forall|k: int|
            0 <= k <= parts.2.len() ==> exec_references_root(
                parts.0 + parts.1 + #[trigger] parts.2.take(k),
                root,
            ),
        lacks(exe, '\n') ==> lacks(exec_command_text(exe, kind), '\n') && !is_white_space(
            exec_command_text(exe, kind).last(),
        ),
{
    reveal_strlit("env APPIMAGELAUNCHER_DISABLE=1 ");
    let pre = if kind == PackageKind::AppImage {
        "env APPIMAGELAUNCHER_DISABLE=1 "@
    } else {
        Seq::<char>::empty()
    };
    let e = exec_command_text(exe, kind);
    let pt = exec_path_text(exe);
    assert(e =~= pre + pt);
    let a = exe.take(i);
    let b = exe.skip(i + root.len());
    assert(exe =~= a + root + b);
    assert(lacks(pre, '\n') && lacks(pre, '\\') && lacks(pre, '"'));
    let bs = seq!['\\'];
    let bs2 = seq!['\\', '\\'];
    let q = seq!['"'];
    let eq = seq!['\\', '"'];
    let head_lacks = lacks(exe.take(i + root.len()), '\n');
    if head_lacks {
        assert(exe.take(i + root.len()).subrange(0, i) =~= a);
        assert(exe.take(i + root.len()).subrange(i, i + root.len()) =~= root);
        lemma_lacks_sub(exe.take(i + root.len()), '\n', 0, i);
        lemma_lacks_sub(exe.take(i + root.len()), '\n', i, i + root.len());
    }
    if !needs_quotes(exe) {
        assert(pt == exe);
        lemma_lacks_contains(exe, '\\');
        let p = pre + a;
        let w = b;
        assert(e =~= p + root + w);
        assert forall|k: int| 0 <= k <= w.len() implies exec_references_root(
            p + root + #[trigger] w.take(k),
            root,
        ) by {
            let v = p + root + w.take(k);
            assert(lacks(v, '\\')) by {
                assert forall|t: int| 0 <= t < v.len() implies #[trigger] v[t] != '\\' by {
                    if t < pre.len() {
                        assert(v[t] == pre[t]);
                    } else {
                        assert(v[t] == exe[t - pre.len()]);
                    }
                }
            }
            lemma_replace_absent(v, eq, q);
            assert(v.subrange(p.len() as int, p.len() + root.len() as int) =~= root);
            assert(occurs_at(v, root, p.len() as int));
        }
        if head_lacks {
            lemma_lacks_concat(pre, a, '\n');
        }
        if lacks(exe, '\n') {
            lemma_lacks_concat(pre, exe, '\n');
            assert(e.last() == exe.last());
            assert(!is_white_space(exe[exe.len() - 1]));
        }
        (p, root, w)
    } else {
        lemma_replace_concat(a + root, b, bs, bs2);
        lemma_replace_concat(a, root, bs, bs2);
        lemma_replace_absent(root, bs, bs2);
        let x1 = replace(a, bs, bs2);
        let y1 = replace(b, bs, bs2);
        assert(replace(exe, bs, bs2) == x1 + root + y1);
        lemma_replace_concat(x1 + root, y1, q, eq);
        lemma_replace_concat(x1, root, q, eq);
        let x2 = replace(x1, q, eq);
        let er = replace(root, q, eq);
        let y2 = replace(y1, q, eq);
        let esc = replace(replace(exe, bs, bs2), q, eq);
        assert(esc == x2 + er + y2);
        assert(pt == q + esc + q);
        let p = pre + q + x2;
        let w = y2 + q;
        assert(e =~= p + er + w);
        lemma_quote_escape(root);
        assert forall|k: int| 0 <= k <= w.len() implies exec_references_root(
            p + er + #[trigger] w.take(k),
            root,
        ) by {
            lemma_unescape_keeps(p, root, w.take(k));
        }
        if head_lacks {
            lemma_replace_lacks(a, bs, bs2, '\n');
            lemma_replace_lacks(x1, q, eq, '\n');
            lemma_lacks_concat(pre, q, '\n');
            lemma_lacks_concat(pre + q, x2, '\n');
        }
        if lacks(exe, '\n') {
            lemma_replace_lacks(exe, bs, bs2, '\n');
            lemma_replace_lacks(replace(exe, bs, bs2), q, eq, '\n');
            lemma_lacks_concat(q, esc, '\n');
            lemma_lacks_concat(q + esc, q, '\n');
            lemma_lacks_concat(pre, q + esc + q, '\n');
            assert(e.last() == '"');
        }
        (p, er, w)
    }
}

/// The `Exec` value written for an executable names every root that the
/// executable's path holds, as long as the root holds no backslash.
pub proof fn law_exec_names_root(exe: Seq<char>, kind: PackageKind, root: Seq<char>)
    requires
        lacks(root, '\\'),
        contains(exe, root),
    ensures
        exec_references_root(exec_command_text(exe, kind), root),
{
    if root.len() == 0 {
        lemma_contains_empty(replace(exec_command_text(exe, kind), seq!['\\', '"'], seq!['"']), root);
    } else {
        let i = choose|i: int| occurs_at(exe, root, i);
        let (p, rt, w) = lemma_exec_split(exe, kind, root, i);
        assert(w.take(w.len() as int) =~= w);
        assert(exec_references_root(p + rt + w.take(w.len() as int), root));
    }
}
/// A line of `x`, a line feed, `l`, a line feed and `y` puts `l`, without
/// a final carriage return, among the lines.
proof fn lemma_line_between(x: Seq<char>, l: Seq<char>, y: Seq<char>)
    requires
        lacks(l, '\n'),
    ensures
        text_lines(x + seq!['\n'] + (l + seq!['\n'] + y))[split_lines(x).len() as int] == strip_cr(l),
        split_lines(x).len() < text_lines(x + seq!['\n'] + (l + seq!['\n'] + y)).len(),
{
    let content = x + seq!['\n'] + (l + seq!['\n'] + y);
    crate::desktop::lemma_split_lines_single(l);
    lemma_split_lines_concat(x, l + seq!['\n'] + y);
    lemma_split_lines_concat(l, y);
    lemma_split_lines_len(y);
    lemma_split_lines_len(x);
    let sx = split_lines(x);
    let p = split_lines(content);
    assert(p == sx + (seq![l] + split_lines(y)));
    let idx = sx.len() as int;
    assert(p[idx] == l);
    assert(p.drop_last()[idx] == l);
    assert(stripped(p.drop_last())[idx] == strip_cr(l));
}

/// Trimming the end of a text keeps every character up to one that is not
/// white space.
proof fn lemma_trim_end_keeps(s: Seq<char>, m: int)
    requires
        1 <= m <= s.len(),
        !is_white_space(s[m - 1]),
    ensures
        trim_end_set(s, CharSet::WhiteSpace).len() >= m,
    decreases s.len(),
{
    if is_white_space(s.last()) {
        assert(s.drop_last()[m - 1] == s[m - 1]);
        lemma_trim_end_keeps(s.drop_last(), m);
    }
}

/// A line that starts with `E`, trimmed after its final carriage return
/// is taken off, keeps its start up to a character that is not white
/// space.
proof fn lemma_line_trim(l: Seq<char>, m: int) -> (k: int)
    requires
        1 <= m <= l.len(),
        l[0] == 'E',
        !is_white_space(l[m - 1]),
    ensures
        m <= k <= l.len(),
        trim(strip_cr(l)) == l.take(k),
{
    let s = strip_cr(l);
    assert(s =~= l.take(s.len() as int));
    assert(s.len() >= m);
    assert(s[m - 1] == l[m - 1]);
    assert(s[0] == l[0]);
    assert(trim_start_set(s, CharSet::WhiteSpace) == s);
    crate::text::lemma_trim_end(s, CharSet::WhiteSpace);
    lemma_trim_end_keeps(s, m);
    let k = trim_end_set(s, CharSet::WhiteSpace).len() as int;
    assert(trim(s) =~= l.take(k));
    k
}

/// The text of a launcher around its `Exec` line.
proof fn lemma_entry_shape(
    display: Seq<char>,
    e: Seq<char>,
    terminal: bool,
    categories: Seq<char>,
    icon: Option<Seq<char>>,
) -> (xy: (Seq<char>, Seq<char>))
    ensures
        entry_text(display, e, terminal, categories, icon) == xy.0 + seq!['\n'] + (("Exec="@ + e)
            + seq!['\n'] + xy.1),
{
    reveal_strlit("\nExec=");
    reveal_strlit("Exec=");
    reveal_strlit("\nTerminal=");
    reveal_strlit("Terminal=");
    let x = "[Desktop Entry]\nType=Application\nName="@ + display;
    let tf = if terminal {
        "true"@
    } else {
        "false"@
    };
    let tail = tf + "\nCategories="@ + categories + "\n"@ + match icon {
        Some(ic) => "Icon="@ + cleaned(ic) + "\n"@,
        None => Seq::empty(),
    };
    let y = "Terminal="@ + tail;
    assert("\nExec="@ =~= seq!['\n'] + "Exec="@);
    assert("\nTerminal="@ =~= seq!['\n'] + "Terminal="@);
    assert(entry_text(display, e, terminal, categories, icon) =~= x + seq!['\n'] + (("Exec="@ + e)
        + seq!['\n'] + y));
    (x, y)
}

/// The launcher written for an installation is recognized as that
/// installation's launcher when the application is removed: when the
/// executable's path holds the installation root from index `i` on, no
/// line break comes before the root's end, and the root holds no
/// backslash, one of the launcher's lines is `Exec=` with a value that
/// names the root. Where the path breaks the line after the root, the
/// root must not end in white space, which the trim of that line would
/// take off.
pub proof fn law_written_launcher_found(
    display: Seq<char>,
    exe: Seq<char>,
    kind: PackageKind,
    terminal: bool,
    categories: Seq<char>,
    icon: Option<Seq<char>>,
    root: Seq<char>,
    i: int,
)
    requires
        lacks(root, '\\'),
        occurs_at(exe, root, i),
        lacks(exe.take(i + root.len()), '\n'),
        lacks(exe, '\n') || root.len() == 0 || !is_white_space(root.last()),
    ensures
        launcher_references_root(
            entry_text(display, exec_command_text(exe, kind), terminal, categories, icon),
            root,
        ),
{
    reveal_strlit("Exec=");
    let e = exec_command_text(exe, kind);
    let (x, y) = lemma_entry_shape(display, e, terminal, categories, icon);
    let content = entry_text(display, e, terminal, categories, icon);
    lemma_first_index_of(e, '\n');
    let cut: int = match first_index_of(e, '\n') {
        None => e.len() as int,
        Some(j) => j,
    };
    let l = "Exec="@ + e.take(cut);
    let y2 = match first_index_of(e, '\n') {
        None => y,
        Some(j) => e.skip(j + 1) + seq!['\n'] + y,
    };
    assert(content =~= x + seq!['\n'] + (l + seq!['\n'] + y2));
    assert(lacks(l, '\n')) by {
        assert forall|t: int| 0 <= t < l.len() implies #[trigger] l[t] != '\n' by {
            if t >= 5 {
                assert(l[t] == e[t - 5]);
            }
        }
    }
    lemma_line_between(x, l, y2);
    let idx = split_lines(x).len() as int;
    assert(text_lines(content)[idx] == strip_cr(l));
    assert(l[0] == 'E' && l[4] == '=');
    let m: int = if root.len() == 0 {
        5
    } else if !is_white_space(root.last()) {
        let (p, rt, w) = lemma_exec_split(exe, kind, root, i);
        let n: int = p.len() as int + rt.len() as int;
        assert(cut >= n) by {
            if cut < n {
                assert(e[cut] == '\n');
                if cut < p.len() {
                    assert(e[cut] == p[cut]);
                } else {
                    assert(e[cut] == rt[cut - p.len()]);
                }
            }
        }
        assert forall|k: int| 5 + n <= k <= l.len() implies exec_references_root(
            #[trigger] l.take(k).skip(5),
            root,
        ) by {
            assert(l.take(k).skip(5) =~= p + rt + w.take(k - 5 - n));
        }
        assert(l[5 + n - 1] == rt.last());
        5 + n as int
    } else {
        let (p, rt, w) = lemma_exec_split(exe, kind, root, i);
        law_exec_names_root(exe, kind, root);
        assert(cut == e.len());
        assert(l.take(l.len() as int).skip(5) =~= e);
        assert(l[l.len() - 1] == e.last());
        l.len() as int
    };
    let k = lemma_line_trim(l, m);
    let line = trim(text_lines(content)[idx]);
    assert(line == l.take(k));
    assert(line.subrange(0, 5) =~= "Exec="@);
    if root.len() == 0 {
        lemma_contains_empty(replace(line.skip(5), seq!['\\', '"'], seq!['"']), root);
    }
    assert(starts_with(line, "Exec="@) && exec_references_root(line.skip(5), root));
}
// ---------------------------------------------------------------------------
// Reading launchers
// ---------------------------------------------------------------------------

/// Every field found stays as it was found.
pub open spec fn keeps_found(before: MetadataView, after: MetadataView) -> bool {
    &&& before.name is Some ==> after.name == before.name
    &&& before.icon is Some ==> after.icon == before.icon
    &&& before.terminal is Some ==> after.terminal == before.terminal
    &&& before.categories is Some ==> after.categories == before.categories
}

/// The first value found for a key is kept: later lines of a launcher
/// never change it.
pub proof fn law_first_value_kept(lines: Seq<Seq<char>>, more: Seq<Seq<char>>)
    ensures
        keeps_found(read_lines(lines).meta, read_lines(lines + more).meta),
    decreases more.len(),
{
    if more.len() == 0 {
        assert(lines + more =~= lines);
    } else {
        law_first_value_kept(lines, more.drop_last());
        assert((lines + more).drop_last() =~= lines + more.drop_last());
        assert((lines + more).last() == more.last());
    }
}

// ---------------------------------------------------------------------------
// How executables and icons are ranked
// ---------------------------------------------------------------------------

/// A launcher file ranks last among executables, whatever directory it is
/// in: `lower` is the lowercase file name of `path`.
pub proof fn law_launcher_files_rank_last(lower: Seq<char>, path: Seq<char>)
    requires
        ends_with(lower, ".desktop"@),
    ensures
        score_for(lower, path) == 3,
{
}

/// A shell script that is not a launcher file ranks after plain
/// executables, even inside a `bin` directory.
pub proof fn law_scripts_rank_after_plain(lower: Seq<char>, path: Seq<char>)
    requires
        ends_with(lower, ".sh"@),
        !ends_with(lower, ".desktop"@),
    ensures
        score_for(lower, path) == 2,
        forall|other: Seq<char>| score_for(lower, path) > score_for(other, path) || ends_with(
            other,
            ".sh"@,
        ) || ends_with(other, ".desktop"@),
{
}

/// Of the executables that are neither scripts nor launcher files, those
/// inside a `bin` directory rank first, and the others right after them.
pub proof fn law_bin_executables_rank_first(lower: Seq<char>, path: Seq<char>)
    requires
        !ends_with(lower, ".sh"@),
        !ends_with(lower, ".desktop"@),
    ensures
        has_component(path, "bin"@) ==> score_for(lower, path) == 0,
        !has_component(path, "bin"@) ==> score_for(lower, path) == 1,
{
}

/// The icons offered put every icon inside an `apps` directory (its
/// lowercase path holds `/apps/`) before every other icon, whatever size
/// either is.
pub proof fn law_apps_icons_first(files: Seq<Seq<char>>, i: int, j: int)
    requires
        0 <= i < j < icon_choice(files).len(),
        contains(lowercase(icon_choice(files)[j]), "/apps/"@),
    ensures
        contains(lowercase(icon_choice(files)[i]), "/apps/"@),
{
    law_icon_choice(files);
    let chosen = icon_choice(files);
    assert(icon_order()(chosen[i], chosen[j]) <= 0);
    let a = icon_rank(chosen[i]);
    let b = icon_rank(chosen[j]);
    assert(ranked_order(a, b) <= 0);
    assert(a.0 <= b.0);
}

/// Among icons with the same place as to `apps` directories, those whose
/// lowercase path holds `256` or `512` come before those that hold
/// neither.
pub proof fn law_large_icons_first(files: Seq<Seq<char>>, i: int, j: int)
    requires
        0 <= i < j < icon_choice(files).len(),
        contains(lowercase(icon_choice(files)[i]), "/apps/"@) == contains(
            lowercase(icon_choice(files)[j]),
            "/apps/"@,
        ),
        contains(lowercase(icon_choice(files)[j]), "256"@) || contains(
            lowercase(icon_choice(files)[j]),
            "512"@,
        ),
    ensures
        contains(lowercase(icon_choice(files)[i]), "256"@) || contains(
            lowercase(icon_choice(files)[i]),
            "512"@,
        ),
{
    law_icon_choice(files);
    let chosen = icon_choice(files);
    assert(icon_order()(chosen[i], chosen[j]) <= 0);
    let a = icon_rank(chosen[i]);
    let b = icon_rank(chosen[j]);
    assert(ranked_order(a, b) <= 0);
    assert(a.0 == b.0);
    assert(a.1 <= b.1);
}

// ---------------------------------------------------------------------------
// The icon a package's launcher names
// ---------------------------------------------------------------------------

/// The stem an `Icon` value is matched by: its file stem, or the value
/// itself when it has none.
pub open spec fn icon_value_stem(value: Seq<char>) -> Seq<char> {
    match file_stem(value) {
        Some(s) => s,
        None => value,
    }
}

/// When an `Icon` value names no existing file, the icon chosen is the
/// earliest candidate whose file stem is the value's stem, and there is
/// none when no candidate has that stem.
pub proof fn law_icon_value_earliest_match(
    root: Seq<char>,
    value: Seq<char>,
    icons: Seq<IconCandidate>,
    value_exists: bool,
    k: int,
)
    requires
        trim(value).len() > 0,
        !(is_absolute(value) && value_exists),
    ensures
        0 <= k < icons.len() && file_stem(icons[k].file_name@) == Some(icon_value_stem(value))
            && (forall|j: int|
            0 <= j < k ==> file_stem(#[trigger] icons[j].file_name@) != Some(icon_value_stem(value)))
            ==> resolved_icon(root, value, icons, value_exists, false) == Some(icons[k].path@),
        (forall|j: int|
            0 <= j < icons.len() ==> file_stem(#[trigger] icons[j].file_name@) != Some(
                icon_value_stem(value),
            )) ==> resolved_icon(root, value, icons, value_exists, false) is None,
{
    let stem = icon_value_stem(value);
    lemma_stem_match(icons, stem);
    if 0 <= k < icons.len() && file_stem(icons[k].file_name@) == Some(stem) && (forall|j: int|
        0 <= j < k ==> file_stem(#[trigger] icons[j].file_name@) != Some(stem)) {
        match stem_match(icons, stem) {
            Some(m) => {
                if m < k {
                    assert(file_stem(icons[m].file_name@) != Some(stem));
                }
                if k < m {
                    assert(file_stem(icons[k].file_name@) != Some(stem));
                }
            },
            None => {
                assert(file_stem(icons[k].file_name@) != Some(stem));
            },
        }
    }
    if forall|j: int| 0 <= j < icons.len() ==> file_stem(#[trigger] icons[j].file_name@) != Some(stem) {
        if let Some(m) = stem_match(icons, stem) {
            assert(file_stem(icons[m].file_name@) != Some(stem));
        }
    }
}

// ---------------------------------------------------------------------------
// Only the `[Desktop Entry]` group is read
// ---------------------------------------------------------------------------

/// A line that, trimmed, is a group header `[...]`.
pub open spec fn is_group_header(raw: Seq<char>) -> bool {
    let line = trim(raw);
    line.len() > 0 && line[0] == '[' && line.last() == ']'
}

/// A group header that opens `[Desktop Entry]` (ASCII case ignored).
pub open spec fn opens_desktop_entry(raw: Seq<char>) -> bool {
    is_group_header(raw) && eq_ignore_ascii_case(trim(raw), "[Desktop Entry]"@)
}

/// After the header of any other group, no line changes what a launcher
/// says until `[Desktop Entry]` opens again, whatever groups came before.
pub proof fn law_other_groups_ignored(before: Seq<Seq<char>>, header: Seq<char>, after: Seq<Seq<char>>)
    requires
        is_group_header(header),
        !opens_desktop_entry(header),
        forall|i: int| 0 <= i < after.len() ==> !opens_desktop_entry(#[trigger] after[i]),
    ensures
        read_lines(before + seq![header] + after).meta == read_lines(before).meta,
        !read_lines(before + seq![header] + after).in_entry,
    decreases after.len(),
{
    if after.len() == 0 {
        assert(before + seq![header] + after =~= before.push(header));
        assert(before.push(header).drop_last() =~= before);
    } else {
        let shorter = after.drop_last();
        assert forall|i: int| 0 <= i < shorter.len() implies !opens_desktop_entry(#[trigger] shorter[i]) by {
            assert(shorter[i] == after[i]);
        }
        law_other_groups_ignored(before, header, shorter);
        let all = before + seq![header] + after;
        assert(all.drop_last() =~= before + seq![header] + shorter);
        assert(all.last() == after[after.len() - 1]);
    }
}

} // verus!
