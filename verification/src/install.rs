//! The decisions of installing and removing an application: which checks
//! a package must pass, where each file goes, which command extracts a
//! package, which symbolic links may be copied and where they point, and
//! which directory may be removed. The caller performs the file-system
//! work and reports what it found.
use vstd::prelude::*;
use crate::errors::InstallError;
use crate::model::{FileFacts, PackageKind};
use crate::names::{file_name_or, opt_str_view, result_view, sanitized_stem, sanitize_file_stem};
use crate::order::chars_order;
use crate::paths::{
    file_name, file_name_chars, is_absolute, join, join_chars, parent,
    parent_chars, path_starts_with, starts_with_chars, strip_prefix, strip_prefix_chars,
};
use crate::sorting::{key_ord, lemma_sorted_by_map, second, sorted_by, stable_sort, values_of};
use crate::text::{from_chars, owned, to_chars, trim, trim_chars};

verus! {

// ---------------------------------------------------------------------------
// The package file
// ---------------------------------------------------------------------------

/// What the user sees of a chosen package file.
#[derive(Debug, Clone, PartialEq, Eq)]
pub struct SourceFileInfo {
    pub file_name: String,
    pub file_size: u64,
    pub source_path: String,
}

/// The checks of an imported file: it must have an absolute path, be
/// readable and be a regular file. `metadata` is what the metadata query
/// of `source_path` reported, or the system's description of its failure.
pub fn inspect_source_path(source_path: &str, metadata: &Result<FileFacts, String>) -> (r: Result<
    SourceFileInfo,
    InstallError,
>)
    ensures
        !is_absolute(source_path@) ==> r == Err::<SourceFileInfo, InstallError>(
            InstallError::SourcePathNotReal,
        ),
        is_absolute(source_path@) ==> match metadata {
            Err(d) => r == Err::<SourceFileInfo, InstallError>(InstallError::ReadSource(*d)),
            Ok(f) => if !f.is_file {
                r == Err::<SourceFileInfo, InstallError>(InstallError::SourceNotFile)
            } else {
                r matches Ok(info) && info.file_name@ == file_name_or(
                    source_path@,
                    "application"@,
                ) && info.file_size == f.len && info.source_path@ == source_path@
            },
        },
{
    let p = to_chars(source_path);
    if !(p.len() > 0 && p[0] == '/') {
        return Err(InstallError::SourcePathNotReal);
    }
    let facts = match metadata {
        Err(d) => return Err(InstallError::ReadSource(d.clone())),
        Ok(f) => *f,
    };
    if !facts.is_file {
        return Err(InstallError::SourceNotFile);
    }
    let file_name = match file_name_chars(p.as_slice()) {
        Some(n) => from_chars(n.as_slice()),
        None => owned("application"),
    };
    Ok(SourceFileInfo { file_name, file_size: facts.len, source_path: owned(source_path) })
}

/// The checks of a package before preview or installation, in order: a
/// known kind, an absolute path, a readable regular file.
pub open spec fn source_check(
    source_path: Seq<char>,
    kind: PackageKind,
    metadata: Result<FileFacts, String>,
) -> Result<(), InstallError> {
    if kind == PackageKind::Unknown {
        Err(InstallError::UnknownPackage)
    } else if !is_absolute(source_path) {
        Err(InstallError::SourcePathNotAbsolute)
    } else {
        match metadata {
            Err(d) => Err(InstallError::ReadSource(d)),
            Ok(f) => if !f.is_file {
                Err(InstallError::SourceNotFile)
            } else {
                Ok(())
            },
        }
    }
}

/// The checks of a package (see `source_check`); `metadata` is what the
/// metadata query of `source_path` reported.
pub fn validate_source(
    source_path: &str,
    package_kind: PackageKind,
    metadata: &Result<FileFacts, String>,
) -> (r: Result<(), InstallError>)
    ensures
        r == source_check(source_path@, package_kind, *metadata),
{
    if package_kind == PackageKind::Unknown {
        return Err(InstallError::UnknownPackage);
    }
    let p = to_chars(source_path);
    if !(p.len() > 0 && p[0] == '/') {
        return Err(InstallError::SourcePathNotAbsolute);
    }
    match metadata {
        Err(d) => Err(InstallError::ReadSource(d.clone())),
        Ok(f) => if !f.is_file {
            Err(InstallError::SourceNotFile)
        } else {
            Ok(())
        },
    }
}

// ---------------------------------------------------------------------------
// AppImages
// ---------------------------------------------------------------------------

/// Where an AppImage is installed: under the installation root, with its
/// own file name.
pub fn install_appimage(source_path: &str, install_root: &str) -> (r: Result<String, InstallError>)
    ensures
        match file_name(source_path@) {
            None => r == Err::<String, InstallError>(InstallError::InvalidInstallFileName),
            Some(n) => r matches Ok(p) && p@ == join(install_root@, n),
        },
{
    let p = to_chars(source_path);
    match file_name_chars(p.as_slice()) {
        None => Err(InstallError::InvalidInstallFileName),
        Some(n) => {
            let root = to_chars(install_root);
            Ok(from_chars(join_chars(root.as_slice(), n.as_slice()).as_slice()))
        },
    }
}

/// Where an AppImage is unpacked for preview: the copy that unpacks
/// itself, and the directory it unpacks into.
#[derive(Debug, Clone, PartialEq, Eq)]
pub struct AppImageExtraction {
    pub extractor_path: String,
    pub extracted_root: String,
}

/// The copy of an AppImage that unpacks itself into `preview_parent`, and
/// the `squashfs-root` directory it creates there.
pub fn extract_appimage(source_path: &str, preview_parent: &str) -> (r: Result<
    AppImageExtraction,
    InstallError,
>)
    ensures
        match file_name(source_path@) {
            None => r == Err::<AppImageExtraction, InstallError>(InstallError::InvalidAppImageName),
            Some(n) => r matches Ok(x) && x.extractor_path@ == join(preview_parent@, n)
                && x.extracted_root@ == join(preview_parent@, "squashfs-root"@),
        },
{
    let p = to_chars(source_path);
    match file_name_chars(p.as_slice()) {
        None => Err(InstallError::InvalidAppImageName),
        Some(n) => {
            let parent = to_chars(preview_parent);
            let sq = to_chars("squashfs-root");
            Ok(
                AppImageExtraction {
                    extractor_path: from_chars(join_chars(parent.as_slice(), n.as_slice()).as_slice()),
                    extracted_root: from_chars(join_chars(parent.as_slice(), sq.as_slice()).as_slice()),
                },
            )
        },
    }
}

/// The outcome of unpacking an AppImage: the command must succeed and
/// leave its directory behind.
pub fn appimage_extraction_outcome(
    succeeded: bool,
    root_is_dir: bool,
    extraction: &AppImageExtraction,
) -> (r: Result<String, InstallError>)
    ensures
        !succeeded ==> r == Err::<String, InstallError>(InstallError::AppImageExtractFailed),
        succeeded && !root_is_dir ==> r == Err::<String, InstallError>(
            InstallError::NoSquashfsRoot,
        ),
        succeeded && root_is_dir ==> (r matches Ok(p) && p@ == extraction.extracted_root@),
{
    if !succeeded {
        Err(InstallError::AppImageExtractFailed)
    } else if root_is_dir {
        Ok(extraction.extracted_root.clone())
    } else {
        Err(InstallError::NoSquashfsRoot)
    }
}

// ---------------------------------------------------------------------------
// Archives
// ---------------------------------------------------------------------------

/// A command to run: a program and its arguments.
#[derive(Debug, Clone, PartialEq, Eq)]
pub struct ExtractCommand {
    pub program: String,
    pub args: Vec<String>,
}

/// The `tar` flag for a tarball, chosen by its lowercase file name.
pub open spec fn tar_flag(source_path: Seq<char>) -> Option<Seq<char>> {
    if crate::names::file_name_ends_with(source_path, ".tar.gz"@)
        || crate::names::file_name_ends_with(source_path, ".tgz"@) {
        Some("-xzf"@)
    } else if crate::names::file_name_ends_with(source_path, ".tar.xz"@) {
        Some("-xJf"@)
    } else if crate::names::file_name_ends_with(source_path, ".tar.bz2"@) {
        Some("-xjf"@)
    } else {
        None
    }
}

/// The characters of each string.
pub open spec fn arg_views(v: Seq<String>) -> Seq<Seq<char>> {
    v.map_values(|s: String| s@)
}

/// The command that extracts a package into `destination`: `tar` with a
/// flag chosen by the suffix for a tarball, `unzip -q` for a zip archive.
pub open spec fn extract_command_ok(
    cmd: ExtractCommand,
    source_path: Seq<char>,
    kind: PackageKind,
    destination: Seq<char>,
) -> bool {
    if kind == PackageKind::Tarball {
        &&& cmd.program@ == "tar"@
        &&& arg_views(cmd.args@) == seq![tar_flag(source_path).unwrap(), source_path, "-C"@, destination]
    } else {
        &&& cmd.program@ == "unzip"@
        &&& arg_views(cmd.args@) == seq!["-q"@, source_path, "-d"@, destination]
    }
}

/// The command that extracts a package (see `extract_command_ok`); an
/// AppImage or an unknown kind needs none, and an unknown tar suffix is
/// refused.
pub fn extract_archive(source_path: &str, package_kind: PackageKind, destination: &str) -> (r: Result<
    ExtractCommand,
    InstallError,
>)
    ensures
        (package_kind == PackageKind::AppImage || package_kind == PackageKind::Unknown) ==> r
            == Err::<ExtractCommand, InstallError>(InstallError::NothingToExtract),
        package_kind == PackageKind::Tarball && tar_flag(source_path@) is None ==> r == Err::<
            ExtractCommand,
            InstallError,
        >(InstallError::UnsupportedTarFormat),
        (package_kind == PackageKind::Archive || (package_kind == PackageKind::Tarball && tar_flag(
            source_path@,
        ) is Some)) ==> (r matches Ok(cmd) && extract_command_ok(
            cmd,
            source_path@,
            package_kind,
            destination@,
        )),
{
    match package_kind {
        PackageKind::Tarball => {
            let flag = if crate::names::path_ends_with(source_path, ".tar.gz")
                || crate::names::path_ends_with(source_path, ".tgz") {
                "-xzf"
            } else if crate::names::path_ends_with(source_path, ".tar.xz") {
                "-xJf"
            } else if crate::names::path_ends_with(source_path, ".tar.bz2") {
                "-xjf"
            } else {
                return Err(InstallError::UnsupportedTarFormat);
            };
            let mut args: Vec<String> = Vec::new();
            args.push(owned(flag));
            args.push(owned(source_path));
            args.push(owned("-C"));
            args.push(owned(destination));
            assert(arg_views(args@) =~= seq![
                tar_flag(source_path@).unwrap(),
                source_path@,
                "-C"@,
                destination@,
            ]);
            Ok(ExtractCommand { program: owned("tar"), args })
        },
        PackageKind::Archive => {
            let mut args: Vec<String> = Vec::new();
            args.push(owned("-q"));
            args.push(owned(source_path));
            args.push(owned("-d"));
            args.push(owned(destination));
            assert(arg_views(args@) =~= seq!["-q"@, source_path@, "-d"@, destination@]);
            Ok(ExtractCommand { program: owned("unzip"), args })
        },
        _ => Err(InstallError::NothingToExtract),
    }
}

/// The outcome of an extraction command.
pub fn extraction_outcome(succeeded: bool) -> (r: Result<(), InstallError>)
    ensures
        succeeded ==> r is Ok,
        !succeeded ==> r == Err::<(), InstallError>(InstallError::ExtractFailed),
{
    if succeeded {
        Ok(())
    } else {
        Err(InstallError::ExtractFailed)
    }
}

/// What the file system reported for the chosen extraction directory and
/// executable: their canonical forms (or the failure), and the metadata of
/// the canonical executable.
#[derive(Debug)]
pub struct SelectionProbe {
    pub canonical_root: Option<String>,
    pub canonical_selected: Result<String, String>,
    pub selected_facts: Result<FileFacts, String>,
}

/// The checks of a chosen executable, in order: both paths absolute, the
/// extraction directory resolves, the executable resolves, lies under the
/// directory, and is a readable regular file. The result is the pair of
/// canonical paths.
pub open spec fn selection_check(
    preview_root: Seq<char>,
    selected_path: Seq<char>,
    probe: SelectionProbe,
) -> Result<(Seq<char>, Seq<char>), InstallError> {
    if !is_absolute(preview_root) || !is_absolute(selected_path) {
        Err(InstallError::SelectionNotAbsolute)
    } else {
        match probe.canonical_root {
            None => Err(InstallError::PreviewRootMissing),
            Some(root) => match probe.canonical_selected {
                Err(d) => Err(InstallError::ReadExecutable(d)),
                Ok(sel) => if !path_starts_with(sel@, root@) {
                    Err(InstallError::SelectionOutsidePreview)
                } else {
                    match probe.selected_facts {
                        Err(d) => Err(InstallError::ReadExecutable(d)),
                        Ok(f) => if !f.is_file {
                            Err(InstallError::SelectionNotFile)
                        } else {
                            Ok((root@, sel@))
                        },
                    }
                },
            },
        }
    }
}

/// The pair of canonical paths, by their characters.
pub open spec fn pair_view(r: Result<(String, String), InstallError>) -> Result<
    (Seq<char>, Seq<char>),
    InstallError,
> {
    match r {
        Ok((a, b)) => Ok((a@, b@)),
        Err(e) => Err(e),
    }
}

/// The checks of a chosen executable (see `selection_check`).
pub fn validate_preview_selection(preview_root: &str, selected_path: &str, probe: &SelectionProbe) -> (r:
    Result<(String, String), InstallError>)
    ensures
        pair_view(r) == selection_check(preview_root@, selected_path@, *probe),
{
    let root = to_chars(preview_root);
    let sel = to_chars(selected_path);
    if !(root.len() > 0 && root[0] == '/') || !(sel.len() > 0 && sel[0] == '/') {
        return Err(InstallError::SelectionNotAbsolute);
    }
    let canonical_root = match &probe.canonical_root {
        None => return Err(InstallError::PreviewRootMissing),
        Some(r) => r.clone(),
    };
    let canonical_selected = match &probe.canonical_selected {
        Err(d) => return Err(InstallError::ReadExecutable(d.clone())),
        Ok(s) => s.clone(),
    };
    let cs = to_chars(canonical_selected.as_str());
    let cr = to_chars(canonical_root.as_str());
    if !starts_with_chars(cs.as_slice(), cr.as_slice()) {
        return Err(InstallError::SelectionOutsidePreview);
    }
    match &probe.selected_facts {
        Err(d) => Err(InstallError::ReadExecutable(d.clone())),
        Ok(f) => if !f.is_file {
            Err(InstallError::SelectionNotFile)
        } else {
            Ok((canonical_root, canonical_selected))
        },
    }
}

/// How an archive is installed: the directory whose contents are copied,
/// and the executable's path once copied.
#[derive(Debug, Clone, PartialEq, Eq)]
pub struct ArchivePlan {
    pub source_root: String,
    pub executable_path: String,
}

/// The installation of an extracted archive: both the extraction directory
/// and the executable must be given; their trimmed paths must pass
/// `selection_check` (`probe` reports on the trimmed paths); the executable
/// is then found under the installation root at its place relative to the
/// extraction directory.
pub open spec fn archive_install(
    preview_root: Option<Seq<char>>,
    selected: Option<Seq<char>>,
    install_root: Seq<char>,
    probe: SelectionProbe,
) -> Result<(Seq<char>, Seq<char>), InstallError> {
    match preview_root {
        None => Err(InstallError::MissingPreviewRoot),
        Some(root) => match selected {
            None => Err(InstallError::MissingSelectedExecutable),
            Some(sel) => match selection_check(trim(root), trim(sel), probe) {
                Err(e) => Err(e),
                Ok((croot, csel)) => match strip_prefix(csel, croot) {
                    None => Err(InstallError::ExecutableOutsidePreview),
                    Some(rel) => Ok((croot, join(install_root, rel))),
                },
            },
        },
    }
}

/// The plan, by its characters.
pub open spec fn plan_view(r: Result<ArchivePlan, InstallError>) -> Result<
    (Seq<char>, Seq<char>),
    InstallError,
> {
    match r {
        Ok(p) => Ok((p.source_root@, p.executable_path@)),
        Err(e) => Err(e),
    }
}

/// The installation of an extracted archive (see `archive_install`).
pub fn install_archive(
    preview_root: Option<&str>,
    selected_executable_path: Option<&str>,
    install_root: &str,
    probe: &SelectionProbe,
) -> (r: Result<ArchivePlan, InstallError>)
    ensures
        plan_view(r) == archive_install(
            opt_str_view(preview_root),
            opt_str_view(selected_executable_path),
            install_root@,
            *probe,
        ),
{
    let root = match preview_root {
        None => return Err(InstallError::MissingPreviewRoot),
        Some(r) => r,
    };
    let sel = match selected_executable_path {
        None => return Err(InstallError::MissingSelectedExecutable),
        Some(s) => s,
    };
    let rt = from_chars(trim_chars(to_chars(root).as_slice()).as_slice());
    let st = from_chars(trim_chars(to_chars(sel).as_slice()).as_slice());
    let (croot, csel) = match validate_preview_selection(rt.as_str(), st.as_str(), probe) {
        Err(e) => return Err(e),
        Ok(pair) => pair,
    };
    let cr = to_chars(croot.as_str());
    let cs = to_chars(csel.as_str());
    let rel = match strip_prefix_chars(cs.as_slice(), cr.as_slice()) {
        None => return Err(InstallError::ExecutableOutsidePreview),
        Some(rel) => rel,
    };
    let ir = to_chars(install_root);
    let exe = join_chars(ir.as_slice(), rel.as_slice());
    Ok(ArchivePlan { source_root: croot, executable_path: from_chars(exe.as_slice()) })
}

/// Where a copy of a directory starts: the canonical source directory and
/// the destination.
#[derive(Debug, Clone, PartialEq, Eq)]
pub struct CopyRoots {
    pub source_root: String,
    pub destination_root: String,
}

/// The roots of copying the extraction directory into `destination`;
/// `canonical_source` is the canonical extraction directory, or the
/// failure to resolve it.
pub fn copy_dir_contents(canonical_source: &Result<String, String>, destination: &str) -> (r: Result<
    CopyRoots,
    InstallError,
>)
    ensures
        match canonical_source {
            Err(d) => r == Err::<CopyRoots, InstallError>(InstallError::ReadPreviewDir(*d)),
            Ok(s) => r matches Ok(c) && c.source_root@ == s@ && c.destination_root@
                == destination@,
        },
{
    match canonical_source {
        Err(d) => Err(InstallError::ReadPreviewDir(d.clone())),
        Ok(s) => Ok(CopyRoots { source_root: s.clone(), destination_root: owned(destination) }),
    }
}

/// What to do with one entry of a directory being copied.
#[derive(Clone, Copy, Debug, PartialEq, Eq, Structural)]
pub enum CopyAction {
    /// Recreate the symbolic link.
    Link,
    /// Copy the directory's contents.
    Descend,
    /// Copy the file with its permissions.
    CopyFile,
    /// Leave the entry out.
    Skip,
}

/// What to do with an entry: links first, then directories, then regular
/// files; anything else is left out.
pub fn copy_action(is_symlink: bool, is_dir: bool, is_file: bool) -> (r: CopyAction)
    ensures
        is_symlink ==> r == CopyAction::Link,
        !is_symlink && is_dir ==> r == CopyAction::Descend,
        !is_symlink && !is_dir && is_file ==> r == CopyAction::CopyFile,
        !is_symlink && !is_dir && !is_file ==> r == CopyAction::Skip,
{
    if is_symlink {
        CopyAction::Link
    } else if is_dir {
        CopyAction::Descend
    } else if is_file {
        CopyAction::CopyFile
    } else {
        CopyAction::Skip
    }
}

/// The path a symbolic link's target is read against: an absolute target
/// as it is, a relative one under the link's directory (or under the
/// source root when the link has none).
pub open spec fn link_resolution(source_path: Seq<char>, source_root: Seq<char>, target: Seq<char>) -> Seq<
    char,
> {
    if is_absolute(target) {
        target
    } else {
        match parent(source_path) {
            Some(p) => join(p, target),
            None => join(source_root, target),
        }
    }
}

/// The path to resolve for the symbolic link at `source_path` (see
/// `link_resolution`).
pub fn symlink_resolution(source_path: &str, source_root: &str, target: &str) -> (r: String)
    ensures
        r@ == link_resolution(source_path@, source_root@, target@),
{
    let t = to_chars(target);
    if t.len() > 0 && t[0] == '/' {
        return owned(target);
    }
    let s = to_chars(source_path);
    let base = match parent_chars(s.as_slice()) {
        Some(p) => p,
        None => to_chars(source_root),
    };
    from_chars(join_chars(base.as_slice(), t.as_slice()).as_slice())
}

/// The target to give a copied symbolic link. Its resolved target must lie
/// inside the source root; an absolute target is moved to the same place
/// under the destination root, a relative one is kept.
pub open spec fn link_copy(
    source_root: Seq<char>,
    destination_root: Seq<char>,
    target: Seq<char>,
    canonical_target: Result<String, String>,
) -> Result<Seq<char>, InstallError> {
    match canonical_target {
        Err(d) => Err(InstallError::ResolveLink(d)),
        Ok(c) => if !path_starts_with(c@, source_root) {
            Err(InstallError::LinkEscapesArchive)
        } else if is_absolute(target) {
            match strip_prefix(c@, source_root) {
                None => Err(InstallError::LinkTargetOutsidePreview),
                Some(rel) => Ok(join(destination_root, rel)),
            }
        } else {
            Ok(target)
        },
    }
}

/// The target to give a copied symbolic link (see `link_copy`);
/// `canonical_target` is the canonical form of `symlink_resolution`, or
/// the failure to resolve it.
pub fn copy_internal_symlink(
    source_root: &str,
    destination_root: &str,
    target: &str,
    canonical_target: &Result<String, String>,
) -> (r: Result<String, InstallError>)
    ensures
        result_view(r) == link_copy(source_root@, destination_root@, target@, *canonical_target),
{
    let c = match canonical_target {
        Err(d) => return Err(InstallError::ResolveLink(d.clone())),
        Ok(c) => to_chars(c.as_str()),
    };
    let sr = to_chars(source_root);
    if !starts_with_chars(c.as_slice(), sr.as_slice()) {
        return Err(InstallError::LinkEscapesArchive);
    }
    let t = to_chars(target);
    if t.len() > 0 && t[0] == '/' {
        match strip_prefix_chars(c.as_slice(), sr.as_slice()) {
            None => Err(InstallError::LinkTargetOutsidePreview),
            Some(rel) => {
                let dr = to_chars(destination_root);
                Ok(from_chars(join_chars(dr.as_slice(), rel.as_slice()).as_slice()))
            },
        }
    } else {
        Ok(owned(target))
    }
}

// ---------------------------------------------------------------------------
// Icons
// ---------------------------------------------------------------------------

/// What the file system reported for the chosen icon and the extraction
/// directory (both trimmed): their canonical forms, if they resolve.
#[derive(Debug, Clone, PartialEq, Eq)]
pub struct IconProbe {
    pub canonical_icon: Option<String>,
    pub canonical_preview: Option<String>,
}

/// What becomes of the chosen icon.
#[derive(Debug, Clone, PartialEq, Eq)]
pub enum IconPlan {
    /// No icon was chosen.
    NoIcon,
    /// The icon is used at this path, once it is found to exist.
    Use(String),
    /// The icon at this path is copied into the installation root first.
    CopyIntoInstallRoot(String),
}

/// The contents of an `IconPlan`.
pub enum IconPlanView {
    NoIcon,
    Use(Seq<char>),
    CopyIntoInstallRoot(Seq<char>),
}

pub open spec fn icon_plan_view(r: Result<IconPlan, InstallError>) -> Result<IconPlanView, InstallError> {
    match r {
        Ok(IconPlan::NoIcon) => Ok(IconPlanView::NoIcon),
        Ok(IconPlan::Use(p)) => Ok(IconPlanView::Use(p@)),
        Ok(IconPlan::CopyIntoInstallRoot(p)) => Ok(IconPlanView::CopyIntoInstallRoot(p@)),
        Err(e) => Err(e),
    }
}

/// What becomes of the chosen icon: nothing when none (or a blank path)
/// was given. For an AppImage the icon must resolve; inside the
/// extraction directory it is copied into the installation root, elsewhere
/// it is used where it is. For an archive with an extraction directory,
/// an icon inside it is used at its place under the installation root and
/// any other where it is; without one, the given path is used.
pub open spec fn icon_plan(
    icon_path: Option<Seq<char>>,
    preview_root: Option<Seq<char>>,
    install_root: Seq<char>,
    kind: PackageKind,
    probe: IconProbe,
) -> Result<IconPlanView, InstallError> {
    match icon_path {
        None => Ok(IconPlanView::NoIcon),
        Some(raw) => if trim(raw).len() == 0 {
            Ok(IconPlanView::NoIcon)
        } else if kind == PackageKind::AppImage {
            match probe.canonical_icon {
                None => Err(InstallError::IconMissing),
                Some(ci) => match preview_root {
                    None => Ok(IconPlanView::Use(ci@)),
                    Some(_) => match probe.canonical_preview {
                        None => Err(InstallError::PreviewRootMissing),
                        Some(cp) => if path_starts_with(ci@, cp@) {
                            Ok(IconPlanView::CopyIntoInstallRoot(ci@))
                        } else {
                            Ok(IconPlanView::Use(ci@))
                        },
                    },
                },
            }
        } else {
            match preview_root {
                None => Ok(IconPlanView::Use(trim(raw))),
                Some(_) => match probe.canonical_preview {
                    None => Err(InstallError::PreviewRootMissing),
                    Some(cp) => match probe.canonical_icon {
                        None => Err(InstallError::IconMissing),
                        Some(ci) => if path_starts_with(ci@, cp@) {
                            match strip_prefix(ci@, cp@) {
                                None => Err(InstallError::IconOutsidePreview),
                                Some(rel) => Ok(IconPlanView::Use(join(install_root, rel))),
                            }
                        } else {
                            Ok(IconPlanView::Use(ci@))
                        },
                    },
                },
            }
        }
    }
}

/// What becomes of the chosen icon (see `icon_plan`); `probe` reports on
/// the trimmed icon path and extraction directory.
pub fn resolve_installed_icon_path(
    icon_path: Option<&str>,
    preview_root: Option<&str>,
    install_root: &str,
    package_kind: PackageKind,
    probe: &IconProbe,
) -> (r: Result<IconPlan, InstallError>)
    ensures
        icon_plan_view(r) == icon_plan(
            opt_str_view(icon_path),
            opt_str_view(preview_root),
            install_root@,
            package_kind,
            *probe,
        ),
{
    let raw = match icon_path {
        None => return Ok(IconPlan::NoIcon),
        Some(raw) => raw,
    };
    let trimmed = trim_chars(to_chars(raw).as_slice());
    if trimmed.len() == 0 {
        return Ok(IconPlan::NoIcon);
    }
    if package_kind == PackageKind::AppImage {
        let ci = match &probe.canonical_icon {
            None => return Err(InstallError::IconMissing),
            Some(ci) => ci.clone(),
        };
        if preview_root.is_none() {
            return Ok(IconPlan::Use(ci));
        }
        let cp = match &probe.canonical_preview {
            None => return Err(InstallError::PreviewRootMissing),
            Some(cp) => cp.clone(),
        };
        let civ = to_chars(ci.as_str());
        let cpv = to_chars(cp.as_str());
        if starts_with_chars(civ.as_slice(), cpv.as_slice()) {
            Ok(IconPlan::CopyIntoInstallRoot(ci))
        } else {
            Ok(IconPlan::Use(ci))
        }
    } else {
        if preview_root.is_none() {
            return Ok(IconPlan::Use(from_chars(trimmed.as_slice())));
        }
        let cp = match &probe.canonical_preview {
            None => return Err(InstallError::PreviewRootMissing),
            Some(cp) => cp.clone(),
        };
        let ci = match &probe.canonical_icon {
            None => return Err(InstallError::IconMissing),
            Some(ci) => ci.clone(),
        };
        let civ = to_chars(ci.as_str());
        let cpv = to_chars(cp.as_str());
        if starts_with_chars(civ.as_slice(), cpv.as_slice()) {
            match strip_prefix_chars(civ.as_slice(), cpv.as_slice()) {
                None => Err(InstallError::IconOutsidePreview),
                Some(rel) => {
                    let ir = to_chars(install_root);
                    Ok(IconPlan::Use(from_chars(join_chars(ir.as_slice(), rel.as_slice()).as_slice())))
                },
            }
        } else {
            Ok(IconPlan::Use(ci))
        }
    }
}

/// Where an icon is copied into the installation root.
#[derive(Debug, Clone, PartialEq, Eq)]
pub struct IconCopy {
    /// The `icons` directory of the installation root.
    pub directory: String,
    /// The copy, named as the icon.
    pub destination: String,
}

/// Where the icon at `icon_path` is copied: the `icons` directory of the
/// installation root, under the icon's file name.
pub fn copy_icon_to_install_root(icon_path: &str, install_root: &str) -> (r: Result<
    IconCopy,
    InstallError,
>)
    ensures
        match file_name(icon_path@) {
            None => r == Err::<IconCopy, InstallError>(InstallError::InvalidIconFileName),
            Some(n) => r matches Ok(c) && c.directory@ == join(install_root@, "icons"@)
                && c.destination@ == join(join(install_root@, "icons"@), n),
        },
{
    let p = to_chars(icon_path);
    match file_name_chars(p.as_slice()) {
        None => Err(InstallError::InvalidIconFileName),
        Some(n) => {
            let ir = to_chars(install_root);
            let icons = to_chars("icons");
            let dir = join_chars(ir.as_slice(), icons.as_slice());
            let dest = join_chars(dir.as_slice(), n.as_slice());
            Ok(
                IconCopy {
                    directory: from_chars(dir.as_slice()),
                    destination: from_chars(dest.as_slice()),
                },
            )
        },
    }
}

/// The icon a launcher finally names: the planned path, if it exists.
pub fn installed_icon_outcome(path: String, exists: bool) -> (r: Result<Option<String>, InstallError>)
    ensures
        exists ==> (r matches Ok(Some(p)) && p@ == path@),
        !exists ==> r == Err::<Option<String>, InstallError>(InstallError::IconMissing),
{
    if exists {
        Ok(Some(path))
    } else {
        Err(InstallError::IconMissing)
    }
}

// ---------------------------------------------------------------------------
// The command-line link
// ---------------------------------------------------------------------------

/// Where the command-line link of an application goes.
#[derive(Debug, Clone, PartialEq, Eq)]
pub struct LinkPlan {
    /// The user's `~/.local/bin`.
    pub directory: String,
    /// The link, named by the application.
    pub link_path: String,
}

/// The user's directory of commands.
pub open spec fn local_bin(home: Seq<char>) -> Seq<char> {
    join(home, ".local/bin"@)
}

/// Where the command-line link of an application goes: in the user's
/// `~/.local/bin`, named by the application's name made a file stem.
pub fn link_to_local_bin(app_name: &str, home: Option<&str>) -> (r: Result<LinkPlan, InstallError>)
    ensures
        match home {
            None => r == Err::<LinkPlan, InstallError>(InstallError::NoHome),
            Some(h) => r matches Ok(plan) && plan.directory@ == local_bin(h@) && plan.link_path@
                == join(local_bin(h@), sanitized_stem(app_name@)),
        },
{
    let h = match home {
        None => return Err(InstallError::NoHome),
        Some(h) => h,
    };
    let hv = to_chars(h);
    let sub = to_chars(".local/bin");
    let dir = join_chars(hv.as_slice(), sub.as_slice());
    let stem = sanitize_file_stem(app_name);
    let sv = to_chars(stem.as_str());
    let link = join_chars(dir.as_slice(), sv.as_slice());
    Ok(LinkPlan { directory: from_chars(dir.as_slice()), link_path: from_chars(link.as_slice()) })
}

/// The path a command-line link points to: an absolute target as it is,
/// a relative one under the link's directory.
pub open spec fn link_target(link_path: Seq<char>, target: Seq<char>) -> Seq<char> {
    if is_absolute(target) {
        target
    } else {
        match parent(link_path) {
            Some(p) => join(p, target),
            None => join(Seq::empty(), target),
        }
    }
}

/// The path a command-line link points to (see `link_target`).
pub fn resolve_link_target(link_path: &str, target: &str) -> (r: String)
    ensures
        r@ == link_target(link_path@, target@),
{
    let t = to_chars(target);
    if t.len() > 0 && t[0] == '/' {
        return owned(target);
    }
    let l = to_chars(link_path);
    let base: Vec<char> = match parent_chars(l.as_slice()) {
        Some(p) => p,
        None => Vec::new(),
    };
    assert(base@ == Seq::<char>::empty() || parent(link_path@) is Some);
    from_chars(join_chars(base.as_slice(), t.as_slice()).as_slice())
}

// ---------------------------------------------------------------------------
// Permissions
// ---------------------------------------------------------------------------

/// The permission bits that make a file executable for everyone and
/// readable and writable for its owner, added to `mode`.
pub fn executable_mode(mode: u32) -> (r: u32)
    ensures
        r == mode | 0o755u32,
{
    mode | 0o755u32
}

/// Whether permission bits let anyone execute the file.
pub fn is_executable_mode(mode: u32) -> (r: bool)
    ensures
        r == (mode & 0o111u32 != 0),
{
    mode & 0o111u32 != 0
}

// ---------------------------------------------------------------------------
// Removal
// ---------------------------------------------------------------------------

/// The application to remove: its name made a file stem, and its
/// directory under the installation directory.
pub fn uninstall_target(install_dir: &str, app_name: &str) -> (r: (String, String))
    ensures
        r.0@ == sanitized_stem(trim(app_name@)),
        r.1@ == join(install_dir@, sanitized_stem(trim(app_name@))),
{
    let t = from_chars(trim_chars(to_chars(app_name).as_slice()).as_slice());
    let name = sanitize_file_stem(t.as_str());
    let d = to_chars(install_dir);
    let n = to_chars(name.as_str());
    let root = from_chars(join_chars(d.as_slice(), n.as_slice()).as_slice());
    (name, root)
}

/// The directory that may be removed: the canonical application directory,
/// which must lie under the canonical installation directory.
pub open spec fn removal_check(
    canonical_dir: Result<String, String>,
    canonical_root: Option<Seq<char>>,
) -> Result<Seq<char>, InstallError> {
    match canonical_dir {
        Err(d) => Err(InstallError::ReadInstallDir(d)),
        Ok(dir) => match canonical_root {
            None => Err(InstallError::AppNotInstalled),
            Some(root) => if path_starts_with(root, dir@) {
                Ok(root)
            } else {
                Err(InstallError::AppOutsideInstallDir)
            },
        },
    }
}

/// The directory that may be removed (see `removal_check`);
/// `canonical_dir` and `canonical_root` are the canonical installation and
/// application directories, or the failure to resolve them.
pub fn check_uninstall_root(canonical_dir: &Result<String, String>, canonical_root: Option<&str>) -> (r:
    Result<String, InstallError>)
    ensures
        result_view(r) == removal_check(*canonical_dir, opt_str_view(canonical_root)),
{
    let dir = match canonical_dir {
        Err(d) => return Err(InstallError::ReadInstallDir(d.clone())),
        Ok(d) => to_chars(d.as_str()),
    };
    let root = match canonical_root {
        None => return Err(InstallError::AppNotInstalled),
        Some(r) => r,
    };
    let rv = to_chars(root);
    if starts_with_chars(rv.as_slice(), dir.as_slice()) {
        Ok(owned(root))
    } else {
        Err(InstallError::AppOutsideInstallDir)
    }
}

// ---------------------------------------------------------------------------
// Installed applications
// ---------------------------------------------------------------------------

/// An application found in the installation directory.
#[derive(Debug, Clone, PartialEq, Eq)]
pub struct InstalledApp {
    pub app_name: String,
    pub install_root: String,
    pub executable_path: Option<String>,
    pub desktop_entry_path: Option<String>,
    pub path_link: Option<String>,
}

/// Installed applications compared by name.
pub open spec fn app_order() -> spec_fn(InstalledApp, InstalledApp) -> int {
    |a: InstalledApp, b: InstalledApp| chars_order(a.app_name@, b.app_name@)
}

/// An application keyed by its name.
pub open spec fn app_keyed() -> spec_fn((Vec<char>, InstalledApp)) -> bool {
    |it: (Vec<char>, InstalledApp)| it.0@ == it.1.app_name@
}

/// The installed applications sorted by name, stably.
pub fn sort_installed_apps(apps: Vec<InstalledApp>) -> (r: Vec<InstalledApp>)
    ensures
        r@ == sorted_by(apps@, app_order()),
{
    let ghost av = apps@;
    let n = apps.len();
    let mut rest = apps;
    let mut items: Vec<(Vec<char>, InstalledApp)> = Vec::new();
    let mut k: usize = 0;
    assert(av.skip(0) =~= av);
    while rest.len() > 0
        invariant
            k + rest@.len() == av.len(),
            av.len() == n,
            rest@ == av.skip(k as int),
            items@.map_values(second::<Vec<char>, InstalledApp>()) == av.take(k as int),
            forall|i: int| 0 <= i < items@.len() ==> app_keyed()(#[trigger] items@[i]),
        decreases rest@.len(),
    {
        let app = rest.remove(0);
        let key = to_chars(app.app_name.as_str());
        let ghost before = items@;
        assert(app == av[k as int]);
        items.push((key, app));
        assert(items@.map_values(second::<Vec<char>, InstalledApp>()) =~= before.map_values(
            second::<Vec<char>, InstalledApp>(),
        ).push(av[k as int]));
        assert(av.take(k + 1) =~= av.take(k as int).push(av[k as int]));
        assert(rest@ =~= av.skip(k + 1));
        k += 1;
    }
    assert(av.take(k as int) =~= av);
    let ghost unsorted = items@;
    proof {
        assert forall|a: (Vec<char>, InstalledApp), b: (Vec<char>, InstalledApp)|
            app_keyed()(a) && app_keyed()(b) implies #[trigger] key_ord::<Vec<char>, InstalledApp>()(
            a,
            b,
        ) == app_order()(
            second::<Vec<char>, InstalledApp>()(a),
            second::<Vec<char>, InstalledApp>()(b),
        ) by {}
        lemma_sorted_by_map(
            unsorted,
            key_ord::<Vec<char>, InstalledApp>(),
            second::<Vec<char>, InstalledApp>(),
            app_order(),
            app_keyed(),
        );
    }
    let sorted = stable_sort(items);
    values_of(sorted)
}

} // verus!
