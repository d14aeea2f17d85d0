//! Downloads: a remote file is read in chunks, the chunks are sent
//! concurrently, and the writing side puts them into the local file in
//! their order.

use crate::buffer::{buffer_bytes, copy_of_buffer};
use crate::client::SftpClient;
use crate::pipeline::{ChunkPipeline, Event, Phase, PipelineAction, PipelineEvent, PipelineState};
use crate::reassembly::{OrderedReassembler, ReassemblyState};
use crate::transfer::{result_of, transfer_result};
use crate::types::{FileTransferOperationResult, SftpError};
use bytes::BytesMut;
use vstd::prelude::*;

verus! {

/// What came of opening and measuring the remote file of a download.
#[derive(Debug)]
pub enum DownloadOpening {
    /// The remote file could not be opened or measured.
    RemoteFailed(String),
    /// The remote file is open; its size is given if the remote side
    /// reported it.
    Ready { remote_file_size: Option<u64> },
}

/// What the caller of a download observed.
#[derive(Debug)]
pub enum DownloadEvent {
    /// The caller's cancellation signal fired before the read completed.
    CancelRequested,
    /// A read of the remote file completed: with a buffer that contains
    /// the next chunk, or with nothing, which means that the file is
    /// exhausted.
    Read(Option<BytesMut>),
    /// A read of the remote file failed.
    ReadFailed(String),
    /// One send in flight handed its chunk to the queue.
    SendFinished,
    /// One send in flight failed.
    SendFailed(String),
    /// The writing side wrote everything it received.
    WriterFinished,
    /// The writing side failed to create or write the local file.
    WriterFailed(String),
}

impl DownloadEvent {
    /// The event as the pipeline sees it. A failed remote read or send is a
    /// remote error; a failed write is a local one.
    pub open spec fn as_event(self) -> Event {
        match self {
            DownloadEvent::CancelRequested => Event::CancelRequested,
            DownloadEvent::Read(Some(buffer)) => Event::ChunkRead(buffer_bytes(buffer)),
            DownloadEvent::Read(None) => Event::EndOfSource,
            DownloadEvent::ReadFailed(reason) => Event::ReadFailed(SftpError::RemoteIo(reason)),
            DownloadEvent::SendFinished => Event::SendFinished,
            DownloadEvent::SendFailed(reason) => Event::SendFailed(SftpError::RemoteIo(reason)),
            DownloadEvent::WriterFinished => Event::WriterFinished,
            DownloadEvent::WriterFailed(reason) => Event::WriterFailed(SftpError::LocalIo(reason)),
        }
    }
}

/// What to ask of one read of the remote file.
pub struct ReadRequest {
    /// The most bytes to read.
    pub len: u32,
    /// The buffer to read into.
    pub buffer: BytesMut,
}

/// A download in mathematical terms.
pub struct DownloadState {
    pub src_file: String,
    pub dest_file: String,
    /// The size of the remote file, if the remote side reported it.
    pub file_size: Option<u64>,
    /// Bytes to ask of each read.
    pub io_size: usize,
    pub pipeline: PipelineState,
}

/// The reading side of one download.
pub struct Download {
    src_file: String,
    dest_file: String,
    file_size: Option<u64>,
    io_size: usize,
    pipeline: ChunkPipeline,
}

impl View for Download {
    type V = DownloadState;

    closed spec fn view(&self) -> DownloadState {
        DownloadState {
            src_file: self.src_file,
            dest_file: self.dest_file,
            file_size: self.file_size,
            io_size: self.io_size,
            pipeline: self.pipeline@,
        }
    }
}

/// Starts a download of `remote_path` to `local_path`, or says why it
/// cannot start.
pub fn get(
    client: &SftpClient,
    remote_path: String,
    local_path: String,
    opening: DownloadOpening,
) -> (result: Result<Download, SftpError>)
    requires
        client.config().valid(),
    ensures
        match opening {
            DownloadOpening::RemoteFailed(reason) => result matches Err(error) && error
                == SftpError::RemoteIo(reason),
            DownloadOpening::Ready { remote_file_size } => result matches Ok(download)
                && download@ == (DownloadState {
                src_file: remote_path,
                dest_file: local_path,
                file_size: remote_file_size,
                io_size: client.config().io_size,
                pipeline: PipelineState::initial(client.config().concurrency as nat),
            }),
        },
{
    match opening {
        DownloadOpening::RemoteFailed(reason) => Err(SftpError::RemoteIo(reason)),
        DownloadOpening::Ready { remote_file_size } => {
            let config = client.configuration();
            Ok(
                Download {
                    src_file: remote_path,
                    dest_file: local_path,
                    file_size: remote_file_size,
                    io_size: config.io_size,
                    pipeline: ChunkPipeline::new(config.concurrency),
                },
            )
        },
    }
}

impl Download {
    /// What to ask of the next read of the remote file: an empty buffer
    /// with room for a whole chunk, and the chunk size as the protocol's
    /// 32-bit read length.
    ///
    /// The buffer is allocated here, so the chunk size must be one that an
    /// allocation can have.
    pub fn read_request(&self) -> (request: ReadRequest)
        requires
            self@.io_size <= isize::MAX,
        ensures
            request.len == self@.io_size as u32,
            buffer_bytes(request.buffer) == Seq::<u8>::empty(),
    {
        ReadRequest {
            len: #[verifier::truncate]
            (self.io_size as u32),
            buffer: BytesMut::with_capacity(self.io_size),
        }
    }

    /// Capacity of the queue between the reading and the writing side.
    pub fn queue_capacity(&self) -> (capacity: usize)
        ensures
            capacity == self@.pipeline.concurrency,
    {
        self.pipeline.queue_capacity()
    }

    /// Sequence number that the next chunk will be sent under.
    pub fn next_sequence(&self) -> (next: usize)
        ensures
            next == self@.pipeline.next_sequence,
    {
        self.pipeline.next_sequence()
    }

    /// Sends started and not yet reported complete.
    pub fn in_flight(&self) -> (count: usize)
        ensures
            count == self@.pipeline.in_flight,
    {
        self.pipeline.in_flight()
    }

    /// The writing side of this download. Chunks that were queued before a
    /// cancellation are still written, in order.
    pub fn writer(&self) -> (writer: OrderedReassembler)
        ensures
            writer.wf(),
            writer@ == ReassemblyState::initial(),
    {
        OrderedReassembler::new()
    }

    /// What the transfer waits for: what the caller is to do when it has
    /// started a send, or has lost track.
    pub fn awaited(&self) -> (action: PipelineAction)
        ensures
            action@ == self@.pipeline.awaited(),
    {
        self.pipeline.awaited()
    }

    /// Takes what the caller observed and says what to do next.
    ///
    /// A chunk can be numbered only while the machine can count one further.
    pub fn step(&mut self, event: DownloadEvent) -> (action: PipelineAction)
        requires
            old(self)@.pipeline.wf(),
            old(self)@.pipeline.phase == Phase::Reading && event.as_event() is ChunkRead ==> old(
                self,
            )@.pipeline.next_sequence < usize::MAX,
        ensures
            final(self)@ == (DownloadState {
                pipeline: old(self)@.pipeline.step(event.as_event()),
                ..old(self)@
            }),
            action@ == old(self)@.pipeline.respond(event.as_event()),
            final(self)@.pipeline.wf(),
    {
        let event = match event {
            DownloadEvent::CancelRequested => PipelineEvent::CancelRequested,
            DownloadEvent::Read(Some(buffer)) => PipelineEvent::ChunkRead(copy_of_buffer(&buffer)),
            DownloadEvent::Read(None) => PipelineEvent::EndOfSource,
            DownloadEvent::ReadFailed(reason) => PipelineEvent::ReadFailed(
                SftpError::RemoteIo(reason),
            ),
            DownloadEvent::SendFinished => PipelineEvent::SendFinished,
            DownloadEvent::SendFailed(reason) => PipelineEvent::SendFailed(
                SftpError::RemoteIo(reason),
            ),
            DownloadEvent::WriterFinished => PipelineEvent::WriterFinished,
            DownloadEvent::WriterFailed(reason) => PipelineEvent::WriterFailed(
                SftpError::LocalIo(reason),
            ),
        };
        self.pipeline.step(event)
    }

    /// The result of the download; `None` while it is still under way. A
    /// download that completes without a reported size of the remote file
    /// fails with [`SftpError::UnknownSize`].
    pub fn result(self) -> (result: Option<Result<FileTransferOperationResult, SftpError>>)
        ensures
            result == match self@.pipeline.outcome() {
                Some(outcome) => Some(
                    result_of(self@.src_file, self@.dest_file, self@.file_size, outcome),
                ),
                None => None,
            },
    {
        match self.pipeline.outcome() {
            Some(outcome) => Some(
                transfer_result(self.src_file, self.dest_file, self.file_size, outcome),
            ),
            None => None,
        }
    }
}

} // verus!
