//! Uploads: a local file is read in chunks, the chunks are sent
//! concurrently, and the writing side puts them into the remote file in
//! their order.

use crate::client::SftpClient;
use crate::pipeline::{ChunkPipeline, Event, Phase, PipelineAction, PipelineEvent, PipelineState};
use crate::reassembly::{payloads, OrderedReassembler, ReassemblyState};
use crate::transfer::{result_of, transfer_result};
use crate::types::{FileTransferOperationResult, SftpError};
use crate::signal::is_child_of;
use tokio_util::sync::CancellationToken;
use vstd::prelude::*;

verus! {

/// What came of opening the two files of an upload: the local one is
/// opened and measured first, then the remote one is created.
#[derive(Debug)]
pub enum UploadOpening {
    /// The local file could not be opened or measured.
    LocalFailed(String),
    /// The remote file could not be created.
    RemoteFailed(String),
    /// Both files are open; the local one has this many bytes.
    Ready { local_file_size: u64 },
}

/// What the caller of an upload observed.
#[derive(Debug)]
pub enum UploadEvent {
    /// The caller's cancellation signal fired before the read completed.
    CancelRequested,
    /// A read of the local file put `bytes_read` bytes at the start of
    /// `buffer`. No bytes means that the file is exhausted.
    Read { buffer: Vec<u8>, bytes_read: usize },
    /// A read of the local file failed.
    ReadFailed(String),
    /// One send in flight handed its chunk to the queue.
    SendFinished,
    /// One send in flight failed.
    SendFailed(String),
    /// The writing side wrote everything it received.
    WriterFinished,
    /// The writing side failed to write to the remote file.
    WriterFailed(String),
}

impl UploadEvent {
    /// The event as the pipeline sees it. A failed local read is a local
    /// error; a failed send or write is a remote one.
    pub open spec fn as_event(self) -> Event {
        match self {
            UploadEvent::CancelRequested => Event::CancelRequested,
            UploadEvent::Read { buffer, bytes_read } => if bytes_read == 0 {
                Event::EndOfSource
            } else if bytes_read <= buffer@.len() {
                Event::ChunkRead(buffer@.take(bytes_read as int))
            } else {
                Event::ChunkRead(buffer@)
            },
            UploadEvent::ReadFailed(reason) => Event::ReadFailed(SftpError::LocalIo(reason)),
            UploadEvent::SendFinished => Event::SendFinished,
            UploadEvent::SendFailed(reason) => Event::SendFailed(SftpError::RemoteIo(reason)),
            UploadEvent::WriterFinished => Event::WriterFinished,
            UploadEvent::WriterFailed(reason) => Event::WriterFailed(SftpError::RemoteIo(reason)),
        }
    }
}

/// An upload in mathematical terms.
pub struct UploadState {
    pub src_file: String,
    pub dest_file: String,
    pub file_size: u64,
    /// Bytes to ask of each read.
    pub io_size: usize,
    pub pipeline: PipelineState,
}

/// The reading side of one upload.
pub struct Upload {
    src_file: String,
    dest_file: String,
    file_size: u64,
    io_size: usize,
    stop: CancellationToken,
    pipeline: ChunkPipeline,
}

impl View for Upload {
    type V = UploadState;

    closed spec fn view(&self) -> UploadState {
        UploadState {
            src_file: self.src_file,
            dest_file: self.dest_file,
            file_size: self.file_size,
            io_size: self.io_size,
            pipeline: self.pipeline@,
        }
    }
}

/// Starts an upload of `local_path` to `remote_path`, or says why it cannot
/// start.
pub fn put(
    client: &SftpClient,
    local_path: String,
    remote_path: String,
    opening: UploadOpening,
) -> (result: Result<Upload, SftpError>)
    requires
        client.config().valid(),
    ensures
        match opening {
            UploadOpening::LocalFailed(reason) => result matches Err(error) && error
                == SftpError::LocalIo(reason),
            UploadOpening::RemoteFailed(reason) => result matches Err(error) && error
                == SftpError::RemoteIo(reason),
            UploadOpening::Ready { local_file_size } => result matches Ok(upload) && upload@ == (
            UploadState {
                src_file: local_path,
                dest_file: remote_path,
                file_size: local_file_size,
                io_size: client.config().io_size,
                pipeline: PipelineState::initial(client.config().concurrency as nat),
            }),
        },
{
    match opening {
        UploadOpening::LocalFailed(reason) => Err(SftpError::LocalIo(reason)),
        UploadOpening::RemoteFailed(reason) => Err(SftpError::RemoteIo(reason)),
        UploadOpening::Ready { local_file_size } => {
            let config = client.configuration();
            Ok(
                Upload {
                    src_file: local_path,
                    dest_file: remote_path,
                    file_size: local_file_size,
                    io_size: config.io_size,
                    stop: CancellationToken::new(),
                    pipeline: ChunkPipeline::new(config.concurrency),
                },
            )
        },
    }
}

impl Upload {
    /// A buffer for the next read of the local file: one chunk of zeros.
    ///
    /// The buffer is allocated here, so the chunk size must be one that an
    /// allocation can have.
    pub fn read_buffer(&self) -> (buffer: Vec<u8>)
        requires
            self@.io_size <= isize::MAX,
        ensures
            buffer@ == Seq::new(self@.io_size as nat, |i: int| 0u8),
    {
        let buffer = vec![0u8; self.io_size];
        assert(buffer@ =~= Seq::new(self@.io_size as nat, |i: int| 0u8));
        buffer
    }

    /// Capacity of the queue between the reading and the writing side.
    pub fn queue_capacity(&self) -> (capacity: usize)
        ensures
            capacity == self@.pipeline.concurrency,
    {
        self.pipeline.queue_capacity()
    }

    /// Sequence number that the next chunk will be sent under.
    pub fn next_sequence(&self) -> (next: usize)
        ensures
            next == self@.pipeline.next_sequence,
    {
        self.pipeline.next_sequence()
    }

    /// Sends started and not yet reported complete.
    pub fn in_flight(&self) -> (count: usize)
        ensures
            count == self@.pipeline.in_flight,
    {
        self.pipeline.in_flight()
    }

    /// The signal by which this side tells the writing side to stop. It is
    /// made with the upload and stays the same signal throughout.
    pub closed spec fn stop_signal(&self) -> CancellationToken {
        self.stop
    }

    /// The writing side of this upload: it has received nothing, and its
    /// stop signal is a child of this side's, so that it stops writing as
    /// soon as this side observes cancellation.
    pub fn writer(&self) -> (writer: UploadWriter)
        ensures
            writer.wf(),
            writer@ == ReassemblyState::initial(),
            is_child_of(writer.stop_signal(), self.stop_signal()),
    {
        UploadWriter { stop: self.stop.child_token(), reassembler: OrderedReassembler::new() }
    }

    /// What the transfer waits for: what the caller is to do when it has
    /// started a send, or has lost track.
    pub fn awaited(&self) -> (action: PipelineAction)
        ensures
            action@ == self@.pipeline.awaited(),
    {
        self.pipeline.awaited()
    }

    /// Takes what the caller observed and says what to do next. On
    /// cancellation the writing side is told to stop at once.
    ///
    /// A chunk can be numbered only while the machine can count one further.
    pub fn step(&mut self, event: UploadEvent) -> (action: PipelineAction)
        requires
            old(self)@.pipeline.wf(),
            old(self)@.pipeline.phase == Phase::Reading && event.as_event() is ChunkRead ==> old(
                self,
            )@.pipeline.next_sequence < usize::MAX,
        ensures
            final(self)@ == (UploadState {
                pipeline: old(self)@.pipeline.step(event.as_event()),
                ..old(self)@
            }),
            action@ == old(self)@.pipeline.respond(event.as_event()),
            final(self)@.pipeline.wf(),
            final(self).stop_signal() == old(self).stop_signal(),
    {
        let event = match event {
            UploadEvent::CancelRequested => {
                if self.pipeline.phase() == Phase::Reading {
                    self.stop.cancel();
                }
                PipelineEvent::CancelRequested
            },
            UploadEvent::Read { buffer, bytes_read } => {
                if bytes_read == 0 {
                    PipelineEvent::EndOfSource
                } else {
                    let mut chunk = buffer;
                    chunk.truncate(bytes_read);
                    PipelineEvent::ChunkRead(chunk)
                }
            },
            UploadEvent::ReadFailed(reason) => PipelineEvent::ReadFailed(SftpError::LocalIo(reason)),
            UploadEvent::SendFinished => PipelineEvent::SendFinished,
            UploadEvent::SendFailed(reason) => PipelineEvent::SendFailed(
                SftpError::RemoteIo(reason),
            ),
            UploadEvent::WriterFinished => PipelineEvent::WriterFinished,
            UploadEvent::WriterFailed(reason) => PipelineEvent::WriterFailed(
                SftpError::RemoteIo(reason),
            ),
        };
        self.pipeline.step(event)
    }

    /// The result of the upload; `None` while it is still under way.
    pub fn result(self) -> (result: Option<Result<FileTransferOperationResult, SftpError>>)
        ensures
            result == match self@.pipeline.outcome() {
                Some(outcome) => Some(
                    result_of(self@.src_file, self@.dest_file, Some(self@.file_size), outcome),
                ),
                None => None,
            },
    {
        match self.pipeline.outcome() {
            Some(outcome) => Some(
                transfer_result(self.src_file, self.dest_file, Some(self.file_size), outcome),
            ),
            None => None,
        }
    }
}

/// The writing side of one upload: puts the chunks in order for the remote
/// file until the reading side tells it to stop.
pub struct UploadWriter {
    stop: CancellationToken,
    reassembler: OrderedReassembler,
}

impl View for UploadWriter {
    type V = ReassemblyState;

    closed spec fn view(&self) -> ReassemblyState {
        self.reassembler@
    }
}

impl UploadWriter {
    /// See [`OrderedReassembler::wf`].
    pub closed spec fn wf(&self) -> bool {
        self.reassembler.wf()
    }

    /// The signal that tells this side to stop. It stays the same signal
    /// throughout.
    pub closed spec fn stop_signal(&self) -> CancellationToken {
        self.stop
    }

    /// Takes one arrival and returns the payloads to write to the remote
    /// file now, in order. Once the reading side has observed
    /// cancellation, arrivals are dropped and nothing more is written;
    /// whether it has is asked of the stop signal at each arrival.
    pub fn accept(&mut self, sequence: usize, payload: Vec<u8>) -> (ready: Vec<Vec<u8>>)
        requires
            old(self).wf(),
            sequence < usize::MAX,
        ensures
            final(self).wf(),
            final(self).stop_signal() == old(self).stop_signal(),
            exists|stopped: bool|
                (final(self)@, payloads(ready@)) == #[trigger] old(self)@.accept_unless(
                    stopped,
                    sequence as nat,
                    payload@,
                ),
    {
        let stopped = self.stop.is_cancelled();
        let ready = self.reassembler.accept_unless(stopped, sequence, payload);
        assert((self@, payloads(ready@)) == old(self)@.accept_unless(
            stopped,
            sequence as nat,
            payload@,
        ));
        ready
    }
}

} // verus!
