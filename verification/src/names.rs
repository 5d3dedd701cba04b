//! Names of installed applications, and the directories the user names.
use vstd::prelude::*;
use crate::errors::InstallError;
use crate::paths::{file_name, file_name_chars, is_absolute, join, join_chars, path_file_name};
use crate::text::{
    ascii_alnum, chars_ends_with, decimal, ends_with, from_chars, is_ascii_alnum, lowercase,
    owned, push_all, push_decimal, sub_vec, to_chars, to_lowercase, trim, trim_chars,
    trim_chars_set, trim_set, CharSet,
};

verus! {

/// The characters kept in a file stem; every other character becomes `-`.
pub open spec fn is_stem_char(c: char) -> bool {
    is_ascii_alnum(c) || c == '-' || c == '_' || c == '.'
}

pub open spec fn stem_char(c: char) -> char {
    if is_stem_char(c) {
        c
    } else {
        '-'
    }
}

/// `s` with every character outside the stem alphabet replaced by `-`.
pub open spec fn stem_chars(s: Seq<char>) -> Seq<char> {
    s.map_values(|c: char| stem_char(c))
}

pub open spec fn fallback_app_name() -> Seq<char> {
    "application"@
}

/// A file stem made of `value`: characters outside ASCII letters, digits,
/// `-`, `_` and `.` become `-`, dashes at both ends are dropped, and an
/// empty result becomes `application`.
pub open spec fn sanitized_stem(value: Seq<char>) -> Seq<char> {
    let t = trim_set(stem_chars(value), CharSet::Only('-'));
    if t.len() == 0 {
        fallback_app_name()
    } else {
        t
    }
}

/// A file stem made of `value` (see `sanitized_stem`).
pub fn sanitize_file_stem(value: &str) -> (r: String)
    ensures
        r@ == sanitized_stem(value@),
{
    let v = to_chars(value);
    let n = v.len();
    let mut m: Vec<char> = Vec::new();
    for i in 0..n
        invariant
            n == v@.len(),
            m@ == stem_chars(v@.take(i as int)),
    {
        let c = v[i];
        let d = if ascii_alnum(c) || c == '-' || c == '_' || c == '.' {
            c
        } else {
            '-'
        };
        m.push(d);
        assert(stem_chars(v@.take(i + 1)) =~= stem_chars(v@.take(i as int)).push(d));
    }
    assert(v@.take(n as int) =~= v@);
    let t = trim_chars_set(m.as_slice(), &CharSet::Only('-'));
    if t.len() == 0 {
        owned("application")
    } else {
        from_chars(t.as_slice())
    }
}

/// The package suffixes that name an application, in the order they are
/// tried.
pub open spec fn package_suffixes() -> Seq<Seq<char>> {
    seq![".appimage"@, ".tar.gz"@, ".tgz"@, ".tar.xz"@, ".tar.bz2"@, ".zip"@]
}

/// The first of `suffixes` that ends `lower`.
pub open spec fn first_suffix(lower: Seq<char>, suffixes: Seq<Seq<char>>) -> Option<Seq<char>>
    decreases suffixes.len(),
{
    if suffixes.len() == 0 {
        None
    } else if ends_with(lower, suffixes[0]) {
        Some(suffixes[0])
    } else {
        first_suffix(lower, suffixes.drop_first())
    }
}

/// `name` without the package suffix that ends its lowercase form `lower`,
/// the suffix being removed by its length in characters.
pub open spec fn without_package_suffix(name: Seq<char>, lower: Seq<char>) -> Seq<char> {
    match first_suffix(lower, package_suffixes()) {
        Some(suffix) => if suffix.len() <= name.len() {
            name.take(name.len() - suffix.len())
        } else {
            Seq::empty()
        },
        None => name,
    }
}

/// The file name of `path`, or `fallback` when it has none.
pub open spec fn file_name_or(path: Seq<char>, fallback: Seq<char>) -> Seq<char> {
    match file_name(path) {
        Some(n) => n,
        None => fallback,
    }
}

/// The application name for a package file whose file name, as text, is
/// `name`: the name without the package suffix, made a file stem. A file
/// without a name, or whose name is not text, gives `application`.
pub open spec fn app_name_for(name: Option<Seq<char>>) -> Seq<char> {
    let n = match name {
        Some(n) => n,
        None => fallback_app_name(),
    };
    sanitized_stem(without_package_suffix(n, lowercase(n)))
}

/// The application name for the package file at `path`.
pub open spec fn app_name_of(path: Seq<char>) -> Seq<char> {
    app_name_for(file_name(path))
}

fn suffix_cut(lower: &[char], suffix: &str) -> (r: Option<usize>)
    ensures
        match r {
            Some(k) => ends_with(lower@, suffix@) && k == suffix@.len(),
            None => !ends_with(lower@, suffix@),
        },
{
    let s = to_chars(suffix);
    if chars_ends_with(lower, s.as_slice()) {
        Some(s.len())
    } else {
        None
    }
}

/// The length of the first package suffix that ends `lower`.
fn package_suffix_len(lower: &[char]) -> (r: Option<usize>)
    ensures
        match first_suffix(lower@, package_suffixes()) {
            Some(suffix) => r matches Some(k) && k as int == suffix.len(),
            None => r is None,
        },
{
    proof {
        reveal_with_fuel(first_suffix, 7);
    }
    let ghost sufs = package_suffixes();
    assert(sufs[0] == ".appimage"@ && sufs[1] == ".tar.gz"@ && sufs[2] == ".tgz"@ && sufs[3]
        == ".tar.xz"@ && sufs[4] == ".tar.bz2"@ && sufs[5] == ".zip"@);
    assert(sufs.drop_first()[0] == sufs[1]);
    assert(sufs.drop_first().drop_first()[0] == sufs[2]);
    assert(sufs.drop_first().drop_first().drop_first()[0] == sufs[3]);
    assert(sufs.drop_first().drop_first().drop_first().drop_first()[0] == sufs[4]);
    assert(sufs.drop_first().drop_first().drop_first().drop_first().drop_first()[0] == sufs[5]);
    assert(sufs.drop_first().drop_first().drop_first().drop_first().drop_first().drop_first().len()
        == 0);
    if let Some(k) = suffix_cut(lower, ".appimage") {
        return Some(k);
    }
    if let Some(k) = suffix_cut(lower, ".tar.gz") {
        return Some(k);
    }
    if let Some(k) = suffix_cut(lower, ".tgz") {
        return Some(k);
    }
    if let Some(k) = suffix_cut(lower, ".tar.xz") {
        return Some(k);
    }
    if let Some(k) = suffix_cut(lower, ".tar.bz2") {
        return Some(k);
    }
    suffix_cut(lower, ".zip")
}

/// `name` without the package suffix that ends `lower_name`, where
/// `lower_name` is the lowercase form of `name`.
pub fn strip_package_suffix(name: &str, lower_name: &str) -> (r: String)
    ensures
        r@ == without_package_suffix(name@, lower_name@),
{
    let n = to_chars(name);
    let l = to_chars(lower_name);
    match package_suffix_len(l.as_slice()) {
        None => from_chars(n.as_slice()),
        Some(cut) => {
            if cut <= n.len() {
                assert(n@.subrange(0, n.len() - cut) =~= n@.take(n.len() - cut));
                from_chars(sub_vec(n.as_slice(), 0, n.len() - cut).as_slice())
            } else {
                String::new()
            }
        },
    }
}

/// The application name for a package file (see `app_name_for`), given
/// the file's name as text: what `Path::file_name` followed by `to_str`
/// gives, `None` where the path has no file name or the name is not text.
pub fn app_name_from_path(file_name: Option<&str>) -> (r: String)
    ensures
        r@ == app_name_for(opt_str_view(file_name)),
{
    let name = match file_name {
        Some(n) => owned(n),
        None => owned("application"),
    };
    let lower = to_lowercase(name.as_str());
    let stripped = strip_package_suffix(name.as_str(), lower.as_str());
    sanitize_file_stem(stripped.as_str())
}

/// The application name for the package file at `path` (see
/// `app_name_of`), for a path given as text.
pub fn app_name_of_path(path: &str) -> (r: String)
    ensures
        r@ == app_name_of(path@),
{
    let name = path_file_name(path);
    match &name {
        Some(n) => app_name_from_path(Some(n.as_str())),
        None => app_name_from_path(None),
    }
}

/// Whether the lowercase file name of `path` ends with `suffix`.
pub open spec fn file_name_ends_with(path: Seq<char>, suffix: Seq<char>) -> bool {
    match file_name(path) {
        Some(n) => ends_with(lowercase(n), suffix),
        None => false,
    }
}

/// Whether the lowercase file name of `path` ends with `suffix`.
pub fn path_ends_with(path: &str, suffix: &str) -> (r: bool)
    ensures
        r == file_name_ends_with(path@, suffix@),
{
    let p = to_chars(path);
    match file_name_chars(p.as_slice()) {
        Some(n) => {
            let name = from_chars(n.as_slice());
            let lower = to_lowercase(name.as_str());
            let l = to_chars(lower.as_str());
            let s = to_chars(suffix);
            chars_ends_with(l.as_slice(), s.as_slice())
        },
        None => false,
    }
}

/// The characters of an optional string slice.
pub open spec fn opt_str_view(o: Option<&str>) -> Option<Seq<char>> {
    match o {
        Some(s) => Some(s@),
        None => None,
    }
}

/// `value` with a leading `~` read as the home directory `home`: the path
/// it names, or `None` when it needs a home directory and there is none.
pub open spec fn expanded(value: Seq<char>, home: Option<Seq<char>>) -> Option<Seq<char>> {
    if value == seq!['~'] {
        home
    } else if value.len() >= 2 && value[0] == '~' && value[1] == '/' {
        match home {
            Some(h) => Some(join(h, value.skip(2))),
            None => None,
        }
    } else {
        Some(value)
    }
}

/// `value` with a leading `~` read as the home directory `home` (the value
/// of `HOME`, if it is set).
pub fn expand_home(value: &str, home: Option<&str>) -> (r: Result<String, InstallError>)
    ensures
        match expanded(value@, opt_str_view(home)) {
            Some(p) => r matches Ok(q) && q@ == p,
            None => r == Err::<String, InstallError>(InstallError::NoHome),
        },
{
    let v = to_chars(value);
    let n = v.len();
    if n == 1 && v[0] == '~' {
        assert(v@ =~= seq!['~']);
        return match home {
            Some(h) => Ok(owned(h)),
            None => Err(InstallError::NoHome),
        };
    }
    assert(v@ != seq!['~']) by {
        if v@.len() == 1 {
            assert(v@[0] != seq!['~'][0]);
        }
    }
    if n >= 2 && v[0] == '~' && v[1] == '/' {
        return match home {
            Some(h) => {
                let hv = to_chars(h);
                let rest = sub_vec(v.as_slice(), 2, n);
                assert(v@.subrange(2, n as int) =~= v@.skip(2));
                Ok(from_chars(join_chars(hv.as_slice(), rest.as_slice()).as_slice()))
            },
            None => Err(InstallError::NoHome),
        };
    }
    Ok(owned(value))
}

/// The checked installation directory for what the user typed.
pub open spec fn install_dir_result(value: Seq<char>, home: Option<Seq<char>>) -> Result<
    Seq<char>,
    InstallError,
> {
    match expanded(trim(value), home) {
        None => Err(InstallError::NoHome),
        Some(p) => if p.len() == 0 {
            Err(InstallError::EmptyInstallDir)
        } else if !is_absolute(p) {
            Err(InstallError::RelativeInstallDir)
        } else {
            Ok(p)
        },
    }
}

/// The result of an operation that yields a string, by its characters.
pub open spec fn result_view(r: Result<String, InstallError>) -> Result<Seq<char>, InstallError> {
    match r {
        Ok(s) => Ok(s@),
        Err(e) => Err(e),
    }
}

/// The installation directory for what the user typed: trimmed, with `~`
/// expanded, and required to be a non-empty absolute path.
pub fn validate_install_dir(value: &str, home: Option<&str>) -> (r: Result<String, InstallError>)
    ensures
        result_view(r) == install_dir_result(value@, opt_str_view(home)),
{
    let v = to_chars(value);
    let t = trim_chars(v.as_slice());
    let ts = from_chars(t.as_slice());
    let dir = match expand_home(ts.as_str(), home) {
        Ok(d) => d,
        Err(e) => return Err(e),
    };
    let dv = to_chars(dir.as_str());
    if dv.len() == 0 {
        return Err(InstallError::EmptyInstallDir);
    }
    if dv[0] != '/' {
        return Err(InstallError::RelativeInstallDir);
    }
    Ok(dir)
}

/// The name of the scratch directory for one preview.
pub open spec fn preview_dir_name(app_name: Seq<char>, pid: nat, millis: nat) -> Seq<char> {
    "auto-installer-"@ + sanitized_stem(app_name) + seq!['-'] + decimal(pid) + seq!['-'] + decimal(
        millis,
    )
}

/// The scratch directory for one preview, under the system's temporary
/// directory, named by the application, the process and the time in
/// milliseconds.
pub fn preview_dir_path(temp_dir: &str, app_name: &str, pid: u32, millis: u128) -> (r: String)
    ensures
        r@ == join(temp_dir@, preview_dir_name(app_name@, pid as nat, millis as nat)),
{
    let prefix = to_chars("auto-installer-");
    let stem = sanitize_file_stem(app_name);
    let stem_v = to_chars(stem.as_str());
    let mut name: Vec<char> = Vec::new();
    push_all(&mut name, prefix.as_slice());
    push_all(&mut name, stem_v.as_slice());
    name.push('-');
    push_decimal(&mut name, pid as u128);
    name.push('-');
    push_decimal(&mut name, millis);
    assert(name@ =~= preview_dir_name(app_name@, pid as nat, millis as nat));
    let t = to_chars(temp_dir);
    from_chars(join_chars(t.as_slice(), name.as_slice()).as_slice())
}

} // verus!
