//! Orchestration backbone for a set of cooperating worker processes that
//! exchange messages over a publish/subscribe bus.
//!
//! The crate provides the pieces every agent and client depends on:
//! the envelope protocol that wraps each reply in a tagged
//! success-or-error result, the request/reply layer that correlates
//! replies with their pending calls and tells a timeout from a closed
//! stream, the process supervisor that owns the set of managed agent
//! processes and applies a per-agent restart policy, and the plain
//! record types the agents exchange.

use vstd::prelude::*;

pub mod config;
pub mod envelope;
pub mod explorer;
pub mod mcp_protocol;
pub mod rpc;
pub mod supervisor;

pub use envelope::AgentResponse;

verus! {

/// Classification of a filesystem entry.
#[derive(Debug, Clone, PartialEq, Eq, Structural)]
pub enum FileType {
    File,
    Directory,
}

/// One file the explorer agent found in the scanned directory.
#[derive(Debug, Clone)]
pub struct FileDiscovered {
    pub name: String,
    pub path: String,
}

/// A request to process the file at the given path.
#[derive(Debug, Clone)]
pub struct ProcessFileRequest {
    pub path: String,
}

/// Metadata reported for one filesystem entry.  The timestamps are
/// seconds since the Unix epoch, absent where the filesystem does not
/// provide them.
#[derive(Debug, Clone)]
pub struct FileMetadata {
    pub file_type: FileType,
    pub len_bytes: u64,
    pub created: Option<u64>,
    pub modified: Option<u64>,
}

/// A request for the list of files in the scanned directory.
#[derive(Debug, Clone)]
pub struct FileListRequest;

/// The explorer agent's answer to a [`FileListRequest`].
#[derive(Debug, Clone)]
pub struct FileListResponse {
    pub files: Vec<FileDiscovered>,
}

} // verus!
