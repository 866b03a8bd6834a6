//! The interface between the verified decision logic and the host that
//! carries effects out.  A step of a machine hands back a list of
//! [`Action`]s; the host performs them in order and answers the last one
//! with the matching [`Event`]:
//!
//! - `CheckDir` is answered with `IsDir`, `CheckFile` with `IsFile`,
//! - `ListDir` with `Listing`,
//! - `QueryRelease` with `Release`, `QueryAssets` with `Assets`,
//! - `CreateDir` and `WriteFile` with `Completed`,
//! - `Download` with `Downloaded`, `ReadHeader` with `Header`.
//!
//! The remaining actions (`SetStatus`, `RemoveDir`, `MakeExecutable`,
//! `LogPollProgress`) are fire-and-forget: their outcome is deliberately
//! ignored, and they only appear before the last action of a step or in a
//! terminal step.

use vstd::prelude::*;
use crate::version_config::Asset;

verus! {

/// One child of the working directory.
pub struct DirEntry {
    pub name: String,
    pub is_dir: bool,
}

/// Installation progress reported to the host's status indicator.
#[derive(Clone, Copy, PartialEq, Eq, Structural, Debug)]
pub enum InstallStatus {
    CheckingForUpdate,
    Downloading,
    Idle,
}

/// An effect the host is asked to perform.
pub enum Action {
    /// Does a directory exist at this path?
    CheckDir(String),
    /// Does a regular file exist at this path?
    CheckFile(String),
    /// List the working directory's immediate children.
    ListDir,
    /// Ask the release catalog of this project for its latest release tag,
    /// without requiring assets and excluding pre-releases.
    QueryRelease(String),
    /// Ask the release catalog of this project for its latest release with
    /// published assets, excluding pre-releases.
    QueryAssets(String),
    /// Report installation progress; never answered.
    SetStatus(InstallStatus),
    /// Create this directory and its parents.
    CreateDir(String),
    /// Delete this directory recursively; failures are ignored.
    RemoveDir(String),
    /// Fetch this URL with a GET request, following all redirects.
    Download(String),
    /// Create or truncate the file at `path` and write `data` to it fully.
    WriteFile { path: String, data: Vec<u8> },
    /// Read the first two bytes of the file at this path.
    ReadHeader(String),
    /// Mark the file at this path executable where permissions work that
    /// way; a no-op elsewhere, failures ignored.
    MakeExecutable(String),
    /// Progress note for an unsuccessful poll; never answered.
    LogPollProgress { poll: usize, max: usize },
}

/// The host's answer to the last action of a step.
pub enum Event {
    /// Whether the checked path exists and is a directory.
    IsDir(bool),
    /// Whether the checked path exists and is a regular file.
    IsFile(bool),
    /// The working directory's children.
    Listing(Vec<DirEntry>),
    /// The latest release tag, or nothing when the catalog was unreachable.
    Release(Option<String>),
    /// The latest release's assets, or the catalog's error.
    Assets(Result<Vec<Asset>, String>),
    /// Outcome of a directory creation or file write.
    Completed(Result<(), String>),
    /// The fetched body, or the transport's error.
    Downloaded(Result<Vec<u8>, String>),
    /// The first two bytes of the file, or nothing when they could not be
    /// read.
    Header(Option<(u8, u8)>),
}

} // verus!
