//! Verified core of a chunked, cancellable SFTP file-transfer engine.
//!
//! The crate holds the decisions of the engine and proves them: how chunks
//! are numbered and kept within the concurrency limit, how they are put back
//! in order, which directory entries a listing keeps, and when a shared
//! session may be torn down. The caller performs the reads, writes and waits
//! and reports what happened.
//!
//! A transfer that fails or is cancelled leaves at its destination what
//! was written until then: nothing is rolled back.

// Imports that only contracts use are erased from the compiled code.
#![allow(unused_imports)]

pub mod buffer;
pub mod client;
pub mod download;
pub mod list;
pub mod liveness;
pub mod pipeline;
pub mod platform;
pub mod reassembly;
pub mod session;
pub mod signal;
pub mod transfer;
pub mod types;
pub mod upload;

pub use client::SftpClient;
pub use download::get;
pub use list::ls;
pub use liveness::check_connection;
pub use session::SftpSessionManager;
pub use tokio_util::sync::CancellationToken;
pub use types::{
    FileMetadata, FileTransferOperationResult, FileTransferProgress, FileType, SftpClientConfig,
    SftpError,
};
pub use upload::put;
