//! The shared vocabulary of the installer: package kinds, what a file
//! query reported, and the steps shown to the user.
use vstd::prelude::*;

verus! {

/// The kinds of package the installer recognises.
#[derive(Clone, Copy, Debug, PartialEq, Eq, Structural)]
pub enum PackageKind {
    AppImage,
    Tarball,
    Archive,
    Unknown,
}

/// What a metadata query reported of a path.
#[derive(Clone, Copy, Debug, PartialEq, Eq, Structural)]
pub struct FileFacts {
    pub is_file: bool,
    pub len: u64,
}

/// Whether a step was carried out or skipped.
#[derive(Clone, Copy, Debug, PartialEq, Eq, Structural)]
pub enum StepStatus {
    Done,
    Skipped,
}

/// One line of the report shown after an operation.
#[derive(Debug, Clone, PartialEq, Eq)]
pub struct InstallStep {
    pub title: String,
    pub status: StepStatus,
    pub detail: String,
}

/// A step that was carried out.
pub fn done_step(title: String, detail: String) -> (r: InstallStep)
    ensures
        r.title@ == title@,
        r.status == StepStatus::Done,
        r.detail@ == detail@,
{
    InstallStep { title, status: StepStatus::Done, detail }
}

/// A step that was skipped.
pub fn skipped_step(title: String, detail: String) -> (r: InstallStep)
    ensures
        r.title@ == title@,
        r.status == StepStatus::Skipped,
        r.detail@ == detail@,
{
    InstallStep { title, status: StepStatus::Skipped, detail }
}

} // verus!
