//! The requests a step machine of the installer makes of the file system
//! and the system around it, and the replies it expects. A caller runs a
//! machine by performing each request and handing back the reply, until
//! the machine finishes or refuses.
use vstd::prelude::*;
use crate::errors::InstallError;
use crate::install::{ExtractCommand, IconProbe, SelectionProbe};
use crate::model::FileFacts;

verus! {

/// One request of a step machine.
#[derive(Debug, Clone)]
pub enum Action {
    /// Query the metadata of a file, following links. Answered by `Facts`.
    Inspect { path: String },
    /// Read the clock in milliseconds since the Unix epoch. Answered by
    /// `Clock`.
    Clock,
    /// Create a directory and its missing parents. Answered by `Status`.
    CreateDir { path: String },
    /// Copy a file. Answered by `Status`.
    CopyFile { from: String, to: String },
    /// Read the permission bits of a file. Answered by `Mode`.
    ReadMode { path: String },
    /// Set the permission bits of a file. Answered by `Status`.
    SetMode { path: String, mode: u32 },
    /// Run a command and wait for it, in `directory` when one is given,
    /// with `APPIMAGELAUNCHER_DISABLE=1` in its environment when
    /// `quiet_launcher` holds. Answered by `Ran`.
    Run { command: ExtractCommand, directory: Option<String>, quiet_launcher: bool },
    /// Whether a path is a directory. Answered by `Found`.
    IsDir { path: String },
    /// Whether a path exists. Answered by `Found`.
    Exists { path: String },
    /// List the regular files under a directory with their permission
    /// bits, walking every subdirectory. Answered by `Files`.
    Walk { root: String },
    /// Read a text file. Answered by `Text`.
    ReadText { path: String },
    /// Resolve the extraction directory and the chosen executable.
    /// Answered by `Selection`.
    ProbeSelection { preview_root: String, selected: String },
    /// Resolve the chosen icon and the extraction directory. Answered by
    /// `Icon`.
    ProbeIcon { icon: String, preview_root: Option<String> },
    /// Write a text file. Answered by `Status`.
    WriteFile { path: String, content: String },
    /// Remove a file or a link. Answered by `Status`.
    RemoveFile { path: String },
    /// Remove a directory and everything in it. Answered by `Status`.
    RemoveTree { path: String },
    /// Create a symbolic link at `link` pointing to `target`. Answered by
    /// `Status`.
    Symlink { target: String, link: String },
    /// The canonical form of a path. Answered by `Canonical`.
    Canonicalize { path: String },
    /// The paths of the entries of a directory, in the order the system
    /// lists them, leaving out entries that cannot be read; `None` when the
    /// directory cannot be read. Answered by `Entries`.
    ListDir { path: String },
    /// The target of a symbolic link; `None` when the path is not a link
    /// or cannot be read. Answered by `LinkTarget`.
    ReadLinkTarget { path: String },
    /// The entries of a directory, in the order the system lists them,
    /// each with its file name, its path and whether it is a directory
    /// (not following links). Answered by `Dir`.
    ReadDir { path: String },
    /// The entries of a directory, in the order the system lists them, with
    /// what they are (not following links) and their permission bits, up
    /// to the first entry that cannot be read. Answered by `Scanned`.
    Scan { path: String },
    /// The target of a symbolic link. Answered by `Target`.
    ReadLink { path: String },
    /// Whether something is at a path, not following links. Answered by
    /// `Found`.
    Present { path: String },
    /// The entries of a directory, in the order the system lists them,
    /// each with what it is (not following links) and its permission bits;
    /// an entry that cannot be read, or whose metadata cannot, is `None`,
    /// and the whole reply is `None` when the directory cannot be read.
    /// Answered by `Surveyed`.
    Survey { path: String },
}

/// An entry of a directory being walked.
#[derive(Debug, Clone)]
pub struct WalkEntry {
    pub path: String,
    pub is_dir: bool,
    pub is_file: bool,
    pub mode: u32,
}

/// An entry of a directory being copied.
#[derive(Debug, Clone)]
pub struct EntryFacts {
    pub name: String,
    pub path: String,
    pub is_symlink: bool,
    pub is_dir: bool,
    pub is_file: bool,
    pub mode: u32,
}

/// Why an entry of a directory being copied could not be read: the entry
/// itself, its type, or its metadata. The text is the system's
/// description.
#[derive(Debug, Clone)]
pub enum EntryFailure {
    Entry(String),
    Kind(String),
    Info(String),
}

/// The entries of a directory read in order, and the failure that ended
/// the reading early, if one did.
#[derive(Debug)]
pub struct Scan {
    pub entries: Vec<EntryFacts>,
    pub failure: Option<EntryFailure>,
}

/// An entry of a directory.
#[derive(Debug, Clone)]
pub struct DirEntryInfo {
    pub name: String,
    pub path: String,
    pub is_dir: bool,
}

/// Why a directory could not be listed: the directory itself, one of its
/// entries, or an entry's metadata could not be read. The text is the
/// system's description.
#[derive(Debug, Clone)]
pub enum ListingFailure {
    Dir(String),
    Entry(String),
    Info(String),
}

/// The reply to a request. `Err` holds the system's description of a
/// failure.
#[derive(Debug)]
pub enum Reply {
    Facts(Result<FileFacts, String>),
    Clock(Result<u128, String>),
    Status(Result<(), String>),
    Mode(Result<u32, String>),
    Ran(Result<bool, String>),
    Found(bool),
    Files(Vec<(String, u32)>),
    Text(Result<String, String>),
    Selection(SelectionProbe),
    Icon(IconProbe),
    Canonical(Result<String, String>),
    Entries(Option<Vec<String>>),
    LinkTarget(Option<String>),
    Dir(Result<Vec<DirEntryInfo>, ListingFailure>),
    Scanned(Result<Scan, String>),
    Target(Result<String, String>),
    Surveyed(Option<Vec<Option<WalkEntry>>>),
}

/// What a step machine does next.
#[derive(Debug)]
pub enum Next<T> {
    /// Perform this request and hand back its reply.
    Act(Action),
    /// The operation finished with this result.
    Done(T),
    /// The operation was refused.
    Fail(InstallError),
}

/// `reply` is of the kind that answers `action`.
pub open spec fn answers(action: Action, reply: Reply) -> bool {
    match action {
        Action::Inspect { .. } => reply is Facts,
        Action::Clock => reply is Clock,
        Action::CreateDir { .. } => reply is Status,
        Action::CopyFile { .. } => reply is Status,
        Action::ReadMode { .. } => reply is Mode,
        Action::SetMode { .. } => reply is Status,
        Action::Run { .. } => reply is Ran,
        Action::IsDir { .. } => reply is Found,
        Action::Exists { .. } => reply is Found,
        Action::Walk { .. } => reply is Files,
        Action::ReadText { .. } => reply is Text,
        Action::ProbeSelection { .. } => reply is Selection,
        Action::ProbeIcon { .. } => reply is Icon,
        Action::WriteFile { .. } => reply is Status,
        Action::RemoveFile { .. } => reply is Status,
        Action::RemoveTree { .. } => reply is Status,
        Action::Symlink { .. } => reply is Status,
        Action::Canonicalize { .. } => reply is Canonical,
        Action::ListDir { .. } => reply is Entries,
        Action::ReadLinkTarget { .. } => reply is LinkTarget,
        Action::ReadDir { .. } => reply is Dir,
        Action::Scan { .. } => reply is Scanned,
        Action::ReadLink { .. } => reply is Target,
        Action::Present { .. } => reply is Found,
        Action::Survey { .. } => reply is Surveyed,
    }
}

} // verus!
