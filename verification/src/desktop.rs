//! `.desktop` launcher files: cleaning of the values written into them,
//! quoting of the command they run, reading the metadata of a packaged
//! launcher, writing the launcher of an installed application, and finding
//! the launcher that belongs to an installation.
use vstd::prelude::*;
use crate::errors::InstallError;
use crate::model::PackageKind;
use crate::names::{opt_str_view, sanitized_stem, sanitize_file_stem};
use crate::paths::{extension, extension_chars, join, join_chars, views};
use crate::text::{
    chars_contains, chars_eq, chars_eq_ignore_ascii_case, chars_first_index_of, chars_has,
    chars_replace, chars_starts_with, contains, ends_with, eq_ignore_ascii_case, first_index_of,
    from_chars, is_white_space, lemma_first_index_of, owned, push_all, replace, starts_with, sub_vec,
    to_chars, trim, trim_chars, white_space,
};

verus! {

// ---------------------------------------------------------------------------
// Values
// ---------------------------------------------------------------------------

/// `s` without its line feeds and carriage returns.
pub open spec fn without_line_breaks(s: Seq<char>) -> Seq<char>
    decreases s.len(),
{
    if s.len() == 0 {
        s
    } else if s.last() == '\n' || s.last() == '\r' {
        without_line_breaks(s.drop_last())
    } else {
        without_line_breaks(s.drop_last()).push(s.last())
    }
}

/// A value fit for one line of a launcher: line breaks removed, then
/// white space trimmed.
pub open spec fn cleaned(s: Seq<char>) -> Seq<char> {
    trim(without_line_breaks(s))
}

fn remove_line_breaks(s: &[char]) -> (r: Vec<char>)
    ensures
        r@ == without_line_breaks(s@),
{
    let n = s.len();
    let mut out: Vec<char> = Vec::new();
    for i in 0..n
        invariant
            n == s@.len(),
            out@ == without_line_breaks(s@.take(i as int)),
    {
        assert(s@.take(i + 1).drop_last() =~= s@.take(i as int));
        if s[i] != '\n' && s[i] != '\r' {
            out.push(s[i]);
        }
    }
    assert(s@.take(n as int) =~= s@);
    out
}

/// A value fit for one line of a launcher (see `cleaned`).
pub fn clean_desktop_value(value: &str) -> (r: String)
    ensures
        r@ == cleaned(value@),
{
    let v = to_chars(value);
    let w = remove_line_breaks(v.as_slice());
    let t = trim_chars(w.as_slice());
    from_chars(t.as_slice())
}

/// The `Categories` value: the cleaned value, `Utility` when that is
/// empty, ending in `;`.
pub open spec fn normalized_categories(s: Seq<char>) -> Seq<char> {
    let c = cleaned(s);
    let cats = if c.len() == 0 {
        "Utility"@
    } else {
        c
    };
    if ends_with(cats, seq![';']) {
        cats
    } else {
        cats.push(';')
    }
}

/// The `Categories` value (see `normalized_categories`).
pub fn normalize_categories(value: &str) -> (r: String)
    ensures
        r@ == normalized_categories(value@),
{
    let c = clean_desktop_value(value);
    let mut cats = if c.as_str().unicode_len() == 0 {
        to_chars("Utility")
    } else {
        to_chars(c.as_str())
    };
    let semi = to_chars(";");
    proof {
        reveal_strlit(";");
    }
    assert(semi@ =~= seq![';']);
    if !crate::text::chars_ends_with(cats.as_slice(), semi.as_slice()) {
        cats.push(';');
    }
    from_chars(cats.as_slice())
}

// ---------------------------------------------------------------------------
// The command of a launcher
// ---------------------------------------------------------------------------

/// A path must be quoted in `Exec` when it holds white space, a double
/// quote or a backslash.
pub open spec fn needs_quotes(s: Seq<char>) -> bool {
    (exists|i: int| 0 <= i < s.len() && is_white_space(#[trigger] s[i])) || s.contains('"')
        || s.contains('\\')
}

/// A path as written in `Exec`: as it is, or in double quotes with
/// backslashes doubled and double quotes escaped.
pub open spec fn exec_path_text(s: Seq<char>) -> Seq<char> {
    if !needs_quotes(s) {
        s
    } else {
        seq!['"'] + replace(replace(s, seq!['\\'], seq!['\\', '\\']), seq!['"'], seq!['\\', '"'])
            + seq!['"']
    }
}

/// The `Exec` value for an installed executable; an AppImage is started
/// with its desktop integration prompt switched off.
pub open spec fn exec_command_text(path: Seq<char>, kind: PackageKind) -> Seq<char> {
    if kind == PackageKind::AppImage {
        "env APPIMAGELAUNCHER_DISABLE=1 "@ + exec_path_text(path)
    } else {
        exec_path_text(path)
    }
}

fn has_white_space(s: &[char]) -> (r: bool)
    ensures
        r == exists|i: int| 0 <= i < s@.len() && is_white_space(#[trigger] s@[i]),
{
    let n = s.len();
    for i in 0..n
        invariant
            n == s@.len(),
            forall|k: int| 0 <= k < i ==> !is_white_space(#[trigger] s@[k]),
    {
        if white_space(s[i]) {
            return true;
        }
    }
    false
}

fn exec_path_chars(s: &[char]) -> (r: Vec<char>)
    ensures
        r@ == exec_path_text(s@),
{
    if !has_white_space(s) && !chars_has(s, '"') && !chars_has(s, '\\') {
        return sub_vec(s, 0, s.len());
    }
    let mut bs: Vec<char> = Vec::new();
    bs.push('\\');
    let mut bs2: Vec<char> = Vec::new();
    bs2.push('\\');
    bs2.push('\\');
    let mut q: Vec<char> = Vec::new();
    q.push('"');
    let mut eq: Vec<char> = Vec::new();
    eq.push('\\');
    eq.push('"');
    assert(bs@ =~= seq!['\\']);
    assert(bs2@ =~= seq!['\\', '\\']);
    assert(q@ =~= seq!['"']);
    assert(eq@ =~= seq!['\\', '"']);
    let a = chars_replace(s, bs.as_slice(), bs2.as_slice());
    let b = chars_replace(a.as_slice(), q.as_slice(), eq.as_slice());
    let mut out: Vec<char> = Vec::new();
    out.push('"');
    push_all(&mut out, b.as_slice());
    out.push('"');
    assert(out@ =~= exec_path_text(s@));
    out
}

/// A path as written in `Exec` (see `exec_path_text`).
pub fn desktop_exec_path(path: &str) -> (r: String)
    ensures
        r@ == exec_path_text(path@),
{
    let v = to_chars(path);
    let e = exec_path_chars(v.as_slice());
    from_chars(e.as_slice())
}

/// The `Exec` value for an installed executable (see `exec_command_text`).
pub fn desktop_exec_command(path: &str, package_kind: PackageKind) -> (r: String)
    ensures
        r@ == exec_command_text(path@, package_kind),
{
    let exec = desktop_exec_path(path);
    if package_kind == PackageKind::AppImage {
        let mut out = owned("env APPIMAGELAUNCHER_DISABLE=1 ");
        out.append(exec.as_str());
        out
    } else {
        exec
    }
}

/// An `Exec` value names the installation root: with escaped double quotes
/// read as plain ones, it contains the root's path.
pub open spec fn exec_references_root(value: Seq<char>, root: Seq<char>) -> bool {
    contains(replace(value, seq!['\\', '"'], seq!['"']), root)
}

/// Whether an `Exec` value names the installation root (see
/// `exec_references_root`).
pub fn desktop_exec_references_root(value: &str, install_root: &str) -> (r: bool)
    ensures
        r == exec_references_root(value@, install_root@),
{
    let v = to_chars(value);
    let root = to_chars(install_root);
    let mut from: Vec<char> = Vec::new();
    from.push('\\');
    from.push('"');
    let mut to: Vec<char> = Vec::new();
    to.push('"');
    assert(from@ =~= seq!['\\', '"']);
    assert(to@ =~= seq!['"']);
    let cleaned = chars_replace(v.as_slice(), from.as_slice(), to.as_slice());
    chars_contains(cleaned.as_slice(), root.as_slice())
}

// ---------------------------------------------------------------------------
// Lines
// ---------------------------------------------------------------------------

/// The pieces of `s` between line feeds, empty ones included.
pub open spec fn split_lines(s: Seq<char>) -> Seq<Seq<char>>
    decreases s.len(),
{
    if s.len() == 0 {
        seq![Seq::<char>::empty()]
    } else {
        let p = split_lines(s.drop_last());
        if s.last() == '\n' {
            p.push(Seq::<char>::empty())
        } else {
            p.update(p.len() - 1, p.last().push(s.last()))
        }
    }
}

pub proof fn lemma_split_lines_len(s: Seq<char>)
    ensures
        split_lines(s).len() >= 1,
    decreases s.len(),
{
    if s.len() > 0 {
        lemma_split_lines_len(s.drop_last());
    }
}

pub proof fn lemma_split_lines_concat(x: Seq<char>, y: Seq<char>)
    ensures
        split_lines(x + seq!['\n'] + y) == split_lines(x) + split_lines(y),
    decreases y.len(),
{
    if y.len() == 0 {
        assert(x + seq!['\n'] + y =~= x.push('\n'));
        assert((x.push('\n')).drop_last() =~= x);
        assert(split_lines(x) + split_lines(y) =~= split_lines(x).push(Seq::<char>::empty()));
    } else {
        let y2 = y.drop_last();
        let c = y.last();
        lemma_split_lines_concat(x, y2);
        lemma_split_lines_len(y2);
        lemma_split_lines_len(x);
        let s = x + seq!['\n'] + y;
        assert(s.drop_last() =~= x + seq!['\n'] + y2);
        assert(s.last() == c);
        let p = split_lines(x);
        let q = split_lines(y2);
        if c == '\n' {
            assert(split_lines(s) =~= (p + q).push(Seq::<char>::empty()));
            assert(split_lines(y) =~= q.push(Seq::<char>::empty()));
            assert((p + q).push(Seq::<char>::empty()) =~= p + q.push(Seq::<char>::empty()));
        } else {
            assert(split_lines(y) =~= q.update(q.len() - 1, q.last().push(c)));
            assert((p + q).last() == q.last());
            assert((p + q).update((p + q).len() - 1, (p + q).last().push(c)) =~= p + q.update(
                q.len() - 1,
                q.last().push(c),
            ));
        }
    }
}

/// A text without line feeds is one piece.
pub proof fn lemma_split_lines_single(l: Seq<char>)
    requires
        forall|i: int| 0 <= i < l.len() ==> l[i] != '\n',
    ensures
        split_lines(l) == seq![l],
    decreases l.len(),
{
    if l.len() > 0 {
        assert forall|i: int| 0 <= i < l.drop_last().len() implies l.drop_last()[i] != '\n' by {
            assert(l.drop_last()[i] == l[i]);
        }
        lemma_split_lines_single(l.drop_last());
        assert(l[l.len() - 1] != '\n');
        assert(l.drop_last().push(l.last()) =~= l);
        assert(seq![l.drop_last()].update(0, l) =~= seq![l]);
    } else {
        assert(l =~= Seq::<char>::empty());
    }
}

/// A line that ended in a line feed, without a carriage return before it.
pub open spec fn strip_cr(l: Seq<char>) -> Seq<char> {
    if l.len() > 0 && l.last() == '\r' {
        l.drop_last()
    } else {
        l
    }
}

/// Each of `ls` without a final carriage return.
pub open spec fn stripped(ls: Seq<Seq<char>>) -> Seq<Seq<char>> {
    ls.map_values(|l: Seq<char>| strip_cr(l))
}

/// `str::lines`: the lines of `s`; each line that ends in `\n` loses it
/// and a `\r` before it, and a final empty piece after the last `\n` is
/// not a line.
pub open spec fn text_lines(s: Seq<char>) -> Seq<Seq<char>> {
    let p = split_lines(s);
    let body = stripped(p.drop_last());
    if p.last().len() == 0 {
        body
    } else {
        body.push(p.last())
    }
}

fn strip_cr_vec(mut l: Vec<char>) -> (r: Vec<char>)
    ensures
        r@ == strip_cr(l@),
{
    let n = l.len();
    if n > 0 && l[n - 1] == '\r' {
        l.pop();
    }
    l
}

/// The lines of a text (`str::lines`).
pub fn lines_of(content: &str) -> (r: Vec<Vec<char>>)
    ensures
        views(r@) == text_lines(content@),
{
    let s = to_chars(content);
    let n = s.len();
    let mut out: Vec<Vec<char>> = Vec::new();
    let mut cur: Vec<char> = Vec::new();
    let ghost mut done: Seq<Seq<char>> = Seq::empty();
    assert(s@.take(0) =~= Seq::<char>::empty());
    assert(done.push(cur@) =~= split_lines(s@.take(0)));
    assert(views(out@) =~= stripped(done));
    for i in 0..n
        invariant
            n == s@.len(),
            done.push(cur@) == split_lines(s@.take(i as int)),
            views(out@) == stripped(done),
    {
        let c = s[i];
        assert(s@.take(i + 1).drop_last() =~= s@.take(i as int));
        assert(s@.take(i + 1).last() == c);
        proof {
            lemma_split_lines_len(s@.take(i as int));
        }
        if c == '\n' {
            let ghost cv = cur@;
            let ghost before = views(out@);
            let ghost old_done = done;
            let line = strip_cr_vec(cur);
            out.push(line);
            assert(views(out@) =~= before.push(strip_cr(cv)));
            proof {
                done = done.push(cv);
            }
            assert(stripped(done) =~= stripped(old_done).push(strip_cr(cv)));
            assert(views(out@) =~= stripped(done));
            cur = Vec::new();
            assert(done.push(cur@) =~= split_lines(s@.take(i + 1)));
        } else {
            cur.push(c);
            assert(done.push(cur@) =~= split_lines(s@.take(i + 1)));
        }
    }
    assert(s@.take(n as int) =~= s@);
    let ghost p = done.push(cur@);
    assert(p.drop_last() =~= done);
    if cur.len() > 0 {
        let ghost cv = cur@;
        out.push(cur);
        assert(views(out@) =~= stripped(done).push(cv));
    }
    out
}

// ---------------------------------------------------------------------------
// Reading a packaged launcher
// ---------------------------------------------------------------------------

/// What a launcher says of an application; each field is the first value
/// found for its key in the `[Desktop Entry]` group.
#[derive(Debug, Clone, PartialEq, Eq)]
pub struct DesktopMetadata {
    pub name: Option<String>,
    pub icon: Option<String>,
    pub terminal: Option<bool>,
    pub categories: Option<String>,
}

/// The contents of `DesktopMetadata`.
pub struct MetadataView {
    pub name: Option<Seq<char>>,
    pub icon: Option<Seq<char>>,
    pub terminal: Option<bool>,
    pub categories: Option<Seq<char>>,
}

impl View for DesktopMetadata {
    type V = MetadataView;

    open spec fn view(&self) -> MetadataView {
        MetadataView {
            name: opt_view_string(self.name),
            icon: opt_view_string(self.icon),
            terminal: self.terminal,
            categories: opt_view_string(self.categories),
        }
    }
}

pub open spec fn opt_view_string(o: Option<String>) -> Option<Seq<char>> {
    match o {
        Some(s) => Some(s@),
        None => None,
    }
}

/// The state of reading a launcher: what was found so far, and whether
/// the current group is `[Desktop Entry]`.
pub struct ReadState {
    pub meta: MetadataView,
    pub in_entry: bool,
}

pub open spec fn empty_metadata() -> MetadataView {
    MetadataView { name: None, icon: None, terminal: None, categories: None }
}

/// The effect of one `key=value` line of the `[Desktop Entry]` group.
pub open spec fn apply_entry(m: MetadataView, key: Seq<char>, value: Seq<char>) -> MetadataView {
    if key == "Name"@ && m.name is None {
        MetadataView { name: Some(value), ..m }
    } else if key == "Icon"@ && m.icon is None {
        MetadataView { icon: Some(value), ..m }
    } else if key == "Terminal"@ && m.terminal is None {
        MetadataView { terminal: Some(eq_ignore_ascii_case(value, "true"@)), ..m }
    } else if key == "Categories"@ && m.categories is None {
        MetadataView { categories: Some(value), ..m }
    } else {
        m
    }
}

/// The effect of one line: blank lines and comments change nothing, a
/// group header opens a group, and inside `[Desktop Entry]` a line with
/// `=` gives its key the cleaned value after the first `=`.
pub open spec fn read_step(st: ReadState, raw: Seq<char>) -> ReadState {
    let line = trim(raw);
    if line.len() == 0 || line[0] == '#' {
        st
    } else if line[0] == '[' && line.last() == ']' {
        ReadState { meta: st.meta, in_entry: eq_ignore_ascii_case(line, "[Desktop Entry]"@) }
    } else if !st.in_entry {
        st
    } else {
        match first_index_of(line, '=') {
            None => st,
            Some(k) => ReadState {
                meta: apply_entry(st.meta, trim(line.take(k)), cleaned(line.skip(k + 1))),
                in_entry: st.in_entry,
            },
        }
    }
}

/// The state after reading `lines` in order.
pub open spec fn read_lines(lines: Seq<Seq<char>>) -> ReadState
    decreases lines.len(),
{
    if lines.len() == 0 {
        ReadState { meta: empty_metadata(), in_entry: false }
    } else {
        read_step(read_lines(lines.drop_last()), lines.last())
    }
}

/// What a launcher's text says of the application.
pub open spec fn metadata_of(content: Seq<char>) -> MetadataView {
    read_lines(text_lines(content)).meta
}

fn is_word(s: &[char], word: &str) -> (r: bool)
    ensures
        r == (s@ == word@),
{
    let w = to_chars(word);
    chars_eq(s, w.as_slice())
}

fn apply_entry_exec(m: &mut DesktopMetadata, key: &[char], value: Vec<char>)
    ensures
        final(m)@ == apply_entry(old(m)@, key@, value@),
{
    if is_word(key, "Name") && m.name.is_none() {
        m.name = Some(from_chars(value.as_slice()));
    } else if is_word(key, "Icon") && m.icon.is_none() {
        m.icon = Some(from_chars(value.as_slice()));
    } else if is_word(key, "Terminal") && m.terminal.is_none() {
        let t = to_chars("true");
        m.terminal = Some(chars_eq_ignore_ascii_case(value.as_slice(), t.as_slice()));
    } else if is_word(key, "Categories") && m.categories.is_none() {
        m.categories = Some(from_chars(value.as_slice()));
    }
}

fn read_step_exec(m: &mut DesktopMetadata, in_entry: &mut bool, raw: &[char])
    ensures
        (ReadState { meta: final(m)@, in_entry: *final(in_entry) }) == read_step(
            ReadState { meta: old(m)@, in_entry: *old(in_entry) },
            raw@,
        ),
{
    let line = trim_chars(raw);
    let n = line.len();
    if n == 0 || line[0] == '#' {
        return;
    }
    if line[0] == '[' && line[n - 1] == ']' {
        let h = to_chars("[Desktop Entry]");
        *in_entry = chars_eq_ignore_ascii_case(line.as_slice(), h.as_slice());
        return;
    }
    if !*in_entry {
        return;
    }
    proof {
        lemma_first_index_of(line@, '=');
    }
    match chars_first_index_of(line.as_slice(), '=') {
        None => {},
        Some(k) => {
            let key_raw = sub_vec(line.as_slice(), 0, k);
            let key = trim_chars(key_raw.as_slice());
            let value_raw = sub_vec(line.as_slice(), k + 1, n);
            assert(key_raw@ =~= line@.take(k as int));
            assert(value_raw@ =~= line@.skip(k + 1));
            let w = remove_line_breaks(value_raw.as_slice());
            let value = trim_chars(w.as_slice());
            apply_entry_exec(m, key.as_slice(), value);
        },
    }
}

/// What a launcher's text says of the application: the first `Name`,
/// `Icon`, `Terminal` and `Categories` of its `[Desktop Entry]` group.
pub fn parse_desktop_metadata(content: &str) -> (r: DesktopMetadata)
    ensures
        r@ == metadata_of(content@),
{
    let lines = lines_of(content);
    let ghost ls = views(lines@);
    let mut m = DesktopMetadata { name: None, icon: None, terminal: None, categories: None };
    let mut in_entry = false;
    let n = lines.len();
    assert(ls.take(0) =~= Seq::<Seq<char>>::empty());
    for i in 0..n
        invariant
            n == lines@.len(),
            ls == views(lines@),
            (ReadState { meta: m@, in_entry }) == read_lines(ls.take(i as int)),
    {
        assert(ls.take(i + 1).drop_last() =~= ls.take(i as int));
        assert(ls.take(i + 1).last() == lines@[i as int]@);
        read_step_exec(&mut m, &mut in_entry, lines[i].as_slice());
    }
    assert(ls.take(n as int) =~= ls);
    m
}

// ---------------------------------------------------------------------------
// Writing the launcher of an installed application
// ---------------------------------------------------------------------------

/// What the user asked the launcher to say.
#[derive(Debug, Clone, PartialEq, Eq)]
pub struct DesktopConfig {
    pub name: String,
    pub icon_path: Option<String>,
    pub terminal: bool,
    pub categories: String,
}

/// Where a launcher goes and what it says.
#[derive(Debug, Clone, PartialEq, Eq)]
pub struct DesktopEntryPlan {
    /// The directory that holds the user's launchers.
    pub directory: String,
    /// The launcher file.
    pub path: String,
    /// The launcher's text.
    pub content: String,
}

/// The directory that holds the user's launchers.
pub open spec fn applications_dir(home: Seq<char>) -> Seq<char> {
    join(home, ".local/share/applications"@)
}

/// The name shown for an installed application: the cleaned name the user
/// gave, or the application's name when that is empty.
pub open spec fn display_name(config_name: Seq<char>, app_name: Seq<char>) -> Seq<char> {
    if cleaned(config_name).len() == 0 {
        app_name
    } else {
        cleaned(config_name)
    }
}

/// The text of the launcher of an installed application.
pub open spec fn entry_text(
    display: Seq<char>,
    exec: Seq<char>,
    terminal: bool,
    categories: Seq<char>,
    icon: Option<Seq<char>>,
) -> Seq<char> {
    "[Desktop Entry]\nType=Application\nName="@ + display + "\nExec="@ + exec + "\nTerminal="@ + (
    if terminal {
        "true"@
    } else {
        "false"@
    }) + "\nCategories="@ + categories + "\n"@ + match icon {
        Some(i) => "Icon="@ + cleaned(i) + "\n"@,
        None => Seq::empty(),
    }
}

/// The launcher of an installed application: in the user's launcher
/// directory, named by the display name made a file stem, and giving the
/// display name, the command, the terminal flag, the categories and, when
/// there is one, the icon.
pub open spec fn entry_plan_ok(
    plan: DesktopEntryPlan,
    config: DesktopConfig,
    app_name: Seq<char>,
    executable_path: Seq<char>,
    kind: PackageKind,
    icon_path: Option<Seq<char>>,
    home: Seq<char>,
) -> bool {
    let display = display_name(config.name@, app_name);
    &&& plan.directory@ == applications_dir(home)
    &&& plan.path@ == join(applications_dir(home), sanitized_stem(display) + ".desktop"@)
    &&& plan.content@ == entry_text(
        display,
        exec_command_text(executable_path, kind),
        config.terminal,
        normalized_categories(config.categories@),
        icon_path,
    )
}

/// The launcher to write for an installed application (see
/// `entry_plan_ok`); it needs the home directory.
pub fn create_desktop_entry(
    config: &DesktopConfig,
    app_name: &str,
    executable_path: &str,
    package_kind: PackageKind,
    icon_path: Option<&str>,
    home: Option<&str>,
) -> (r: Result<DesktopEntryPlan, InstallError>)
    ensures
        match home {
            None => r == Err::<DesktopEntryPlan, InstallError>(InstallError::NoHome),
            Some(h) => r matches Ok(plan) && entry_plan_ok(
                plan,
                *config,
                app_name@,
                executable_path@,
                package_kind,
                opt_str_view(icon_path),
                h@,
            ),
        },
{
    let h = match home {
        Some(h) => h,
        None => return Err(InstallError::NoHome),
    };
    let hv = to_chars(h);
    let sub = to_chars(".local/share/applications");
    let dir = join_chars(hv.as_slice(), sub.as_slice());
    let desktop_name = clean_desktop_value(config.name.as_str());
    let display = if desktop_name.as_str().unicode_len() == 0 {
        owned(app_name)
    } else {
        desktop_name
    };
    let categories = normalize_categories(config.categories.as_str());
    let stem = sanitize_file_stem(display.as_str());
    let mut file: Vec<char> = to_chars(stem.as_str());
    let ext = to_chars(".desktop");
    push_all(&mut file, ext.as_slice());
    let path = join_chars(dir.as_slice(), file.as_slice());
    let mut content = owned("[Desktop Entry]\nType=Application\nName=");
    content.append(display.as_str());
    content.append("\nExec=");
    let exec = desktop_exec_command(executable_path, package_kind);
    content.append(exec.as_str());
    content.append("\nTerminal=");
    if config.terminal {
        content.append("true");
    } else {
        content.append("false");
    }
    content.append("\nCategories=");
    content.append(categories.as_str());
    content.append("\n");
    if let Some(icon) = icon_path {
        content.append("Icon=");
        let c = clean_desktop_value(icon);
        content.append(c.as_str());
        content.append("\n");
    }
    let plan = DesktopEntryPlan {
        directory: from_chars(dir.as_slice()),
        path: from_chars(path.as_slice()),
        content,
    };
    assert(plan.content@ =~= entry_text(
        display_name(config.name@, app_name@),
        exec_command_text(executable_path@, package_kind),
        config.terminal,
        normalized_categories(config.categories@),
        opt_str_view(icon_path),
    ));
    Ok(plan)
}

// ---------------------------------------------------------------------------
// Finding the launcher of an installation
// ---------------------------------------------------------------------------

/// A launcher file: its extension is exactly `desktop`.
pub open spec fn is_launcher_file(path: Seq<char>) -> bool {
    extension(path) == Some("desktop"@)
}

/// Whether `path` names a launcher file (see `is_launcher_file`).
pub fn is_desktop_file(path: &str) -> (r: bool)
    ensures
        r == is_launcher_file(path@),
{
    let p = to_chars(path);
    match extension_chars(p.as_slice()) {
        Some(e) => is_word(e.as_slice(), "desktop"),
        None => false,
    }
}

/// A launcher's text starts the installation: one of its lines, trimmed,
/// is `Exec=` followed by a value that names the installation root.
pub open spec fn launcher_references_root(content: Seq<char>, root: Seq<char>) -> bool {
    exists|i: int|
        0 <= i < text_lines(content).len() && {
            let line = trim(#[trigger] text_lines(content)[i]);
            starts_with(line, "Exec="@) && exec_references_root(line.skip(5), root)
        }
}

/// Whether a launcher's text starts the installation at `install_root`
/// (see `launcher_references_root`).
pub fn desktop_file_references_root(content: &str, install_root: &str) -> (r: bool)
    ensures
        r == launcher_references_root(content@, install_root@),
{
    let lines = lines_of(content);
    let ghost ls = views(lines@);
    let prefix = to_chars("Exec=");
    proof {
        reveal_strlit("Exec=");
    }
    let n = lines.len();
    for i in 0..n
        invariant
            n == lines@.len(),
            ls == views(lines@),
            ls == text_lines(content@),
            prefix@ == "Exec="@,
            prefix@.len() == 5,
            forall|k: int|
                0 <= k < i ==> !({
                    let line = trim(#[trigger] ls[k]);
                    starts_with(line, "Exec="@) && exec_references_root(line.skip(5), install_root@)
                }),
    {
        let line = trim_chars(lines[i].as_slice());
        assert(ls[i as int] == lines@[i as int]@);
        if chars_starts_with(line.as_slice(), prefix.as_slice()) {
            let rest = sub_vec(line.as_slice(), 5, line.len());
            assert(rest@ =~= line@.skip(5));
            let root = from_chars(rest.as_slice());
            if desktop_exec_references_root(root.as_str(), install_root) {
                return true;
            }
        }
    }
    false
}

} // verus!
