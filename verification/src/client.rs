//! A client of a shared session, bound to one configuration.

use crate::download::{get, Download, DownloadOpening, DownloadState};
use crate::list::{ls, Listing, ListingState};
use crate::pipeline::PipelineState;
use crate::session::SftpSessionManager;
use crate::types::{SftpClientConfig, SftpError};
use crate::upload::{put, Upload, UploadOpening, UploadState};
use vstd::prelude::*;

verus! {

/// One client of a shared session. It is created by
/// [`SftpSessionManager::create_sftp_client`] and starts uploads, downloads
/// and listings that run under its configuration.
#[derive(Debug)]
pub struct SftpClient {
    config: SftpClientConfig,
}

impl SftpClient {
    pub(crate) fn new(config: SftpClientConfig) -> (client: Self)
        ensures
            client.config() == config,
    {
        SftpClient { config }
    }

    /// The configuration of the client.
    pub closed spec fn config(&self) -> SftpClientConfig {
        self.config
    }

    /// The configuration of the client.
    pub fn configuration(&self) -> (config: SftpClientConfig)
        ensures
            config == self.config(),
    {
        self.config
    }

    /// Starts a listing of `remote_dir`: see [`ls`].
    pub fn ls(&self, remote_dir: String, opened: Result<(), String>) -> (result: Result<
        Listing,
        SftpError,
    >)
        ensures
            match opened {
                Ok(_) => result matches Ok(listing) && listing@ == ListingState::initial(
                    remote_dir@,
                ),
                Err(reason) => result matches Err(error) && error == SftpError::RemoteIo(reason),
            },
    {
        ls(self, remote_dir, opened)
    }

    /// Starts an upload of `local_path` to `remote_path`: see [`put`].
    pub fn put(&self, local_path: String, remote_path: String, opening: UploadOpening) -> (result:
        Result<Upload, SftpError>)
        requires
            self.config().valid(),
        ensures
            match opening {
                UploadOpening::LocalFailed(reason) => result matches Err(error) && error
                    == SftpError::LocalIo(reason),
                UploadOpening::RemoteFailed(reason) => result matches Err(error) && error
                    == SftpError::RemoteIo(reason),
                UploadOpening::Ready { local_file_size } => result matches Ok(upload) && upload@
                    == (UploadState {
                    src_file: local_path,
                    dest_file: remote_path,
                    file_size: local_file_size,
                    io_size: self.config().io_size,
                    pipeline: PipelineState::initial(self.config().concurrency as nat),
                }),
            },
    {
        put(self, local_path, remote_path, opening)
    }

    /// Starts a download of `remote_path` to `local_path`: see [`get`].
    pub fn get(&self, remote_path: String, local_path: String, opening: DownloadOpening) -> (result:
        Result<Download, SftpError>)
        requires
            self.config().valid(),
        ensures
            match opening {
                DownloadOpening::RemoteFailed(reason) => result matches Err(error) && error
                    == SftpError::RemoteIo(reason),
                DownloadOpening::Ready { remote_file_size } => result matches Ok(download)
                    && download@ == (DownloadState {
                    src_file: remote_path,
                    dest_file: local_path,
                    file_size: remote_file_size,
                    io_size: self.config().io_size,
                    pipeline: PipelineState::initial(self.config().concurrency as nat),
                }),
            },
    {
        get(self, remote_path, local_path, opening)
    }

    /// Closes the client: it no longer shares the session of `manager`. The
    /// session itself stays as it is.
    pub fn close(self, manager: &mut SftpSessionManager)
        ensures
            final(manager)@ == old(manager)@.client_released(),
    {
        manager.release_client();
    }
}

} // verus!
