//! Values shared by every part of the engine: configuration, results, errors.

use std::path::PathBuf;
use std::time::SystemTime;
use vstd::prelude::*;
use vstd::string::*;

verus! {

/// Kind of a remote file as reported to callers.
#[derive(Debug, Clone, Copy, PartialEq, Eq, Structural)]
pub enum FileType {
    Regular,
    Directory,
}

/// What a listing reports about one remote file.
#[derive(Debug, Clone, PartialEq, Eq)]
pub struct FileMetadata {
    pub path: PathBuf,
    pub size: Option<u64>,
    pub file_type: FileType,
    pub last_accessed_at: Option<SystemTime>,
    pub last_modified_at: Option<SystemTime>,
}

/// Tuning of one client: bytes per chunk and the most chunk sends that may
/// be in flight at once.
#[derive(Debug, Clone, Copy)]
pub struct SftpClientConfig {
    /// Bytes requested per read, and so the largest chunk.
    pub io_size: usize,
    /// Most chunk sends in flight at once; also the capacity of the queue
    /// between the reading and the writing side.
    pub concurrency: usize,
}

impl SftpClientConfig {
    /// A configuration is usable when both numbers are positive.
    pub open spec fn valid(&self) -> bool {
        self.io_size > 0 && self.concurrency > 0
    }

    /// 64 KiB chunks, eight sends in flight.
    pub fn default() -> (config: Self)
        ensures
            config.io_size == 65536,
            config.concurrency == 8,
            config.valid(),
    {
        Self { io_size: 65536, concurrency: 8 }
    }

    /// A configuration with the given numbers, which are not checked here:
    /// see [`SftpClientConfig::is_valid`].
    pub fn new(io_size: usize, concurrency: usize) -> (config: Self)
        ensures
            config.io_size == io_size,
            config.concurrency == concurrency,
    {
        Self { io_size, concurrency }
    }

    /// Whether both numbers are positive.
    pub fn is_valid(&self) -> (ok: bool)
        ensures
            ok == self.valid(),
    {
        self.io_size > 0 && self.concurrency > 0
    }
}

/// Where a transfer stands, for callers that report progress.
#[derive(Debug, Clone, PartialEq, Eq)]
pub struct FileTransferProgress {
    pub src_file: String,
    pub dest_file: String,
    /// Size of the source in bytes.
    pub file_size: u64,
    /// Whole percent transferred, 0 to 100.
    pub percentage_progress: u8,
}

/// How a transfer ended, or where it stands.
#[derive(Debug, Clone, PartialEq, Eq)]
pub enum FileTransferOperationResult {
    /// Every chunk was read, sent and written.
    Completed(FileTransferProgress),
    /// The caller asked to stop; no error.
    Cancelled { src_file: String, dest_file: String },
    /// Not terminal; no operation of this crate returns it.
    InProgress(FileTransferProgress),
}

/// Why an operation failed.
#[derive(Debug, Clone, PartialEq, Eq)]
pub enum SftpError {
    /// The transport session could not be established.
    Connection(String),
    /// A liveness probe of an established session failed.
    Liveness(String),
    /// The manager holds no live session.
    NotConnected,
    /// Opening, reading or writing a local file failed.
    LocalIo(String),
    /// Opening, reading or writing a remote file failed, or a chunk could
    /// not be handed to the writing side.
    RemoteIo(String),
    /// The session cannot be closed while clients still share it.
    Ownership,
    /// The remote side did not report the size of the file to download.
    UnknownSize,
}

impl SftpError {
    /// The error in words: what failed, then the reason where one is known.
    pub open spec fn text(self) -> Seq<char> {
        match self {
            SftpError::Connection(reason) => "failed to connect: "@ + reason@,
            SftpError::Liveness(reason) => "session is dead: "@ + reason@,
            SftpError::NotConnected => "session is not connected"@,
            SftpError::LocalIo(reason) => "local file: "@ + reason@,
            SftpError::RemoteIo(reason) => "remote file: "@ + reason@,
            SftpError::Ownership => "failed to close session: clients still share it"@,
            SftpError::UnknownSize => "size of the remote file is unknown"@,
        }
    }

    /// The error in words.
    pub fn message(&self) -> (message: String)
        ensures
            message@ == self.text(),
    {
        match self {
            SftpError::Connection(reason) => String::from_str("failed to connect: ").concat(
                reason.as_str(),
            ),
            SftpError::Liveness(reason) => String::from_str("session is dead: ").concat(
                reason.as_str(),
            ),
            SftpError::NotConnected => String::from_str("session is not connected"),
            SftpError::LocalIo(reason) => String::from_str("local file: ").concat(reason.as_str()),
            SftpError::RemoteIo(reason) => String::from_str("remote file: ").concat(
                reason.as_str(),
            ),
            SftpError::Ownership => String::from_str(
                "failed to close session: clients still share it",
            ),
            SftpError::UnknownSize => String::from_str("size of the remote file is unknown"),
        }
    }
}

} // verus!
