use bytes::BytesMut;
use rusty_sftp::download::{Download, DownloadEvent, DownloadOpening};
use rusty_sftp::pipeline::PipelineAction;
use rusty_sftp::session::ClientAttempt;
use rusty_sftp::upload::{UploadEvent, UploadOpening};
use rusty_sftp::{
    get, FileTransferOperationResult, FileTransferProgress, SftpClient, SftpClientConfig,
    SftpError, SftpSessionManager,
};

fn client(io_size: usize, concurrency: usize) -> SftpClient {
    let mut manager = SftpSessionManager::connect(Ok(())).unwrap();
    manager
        .create_sftp_client(SftpClientConfig::new(io_size, concurrency), ClientAttempt::Ready)
        .unwrap()
}

fn start(client: &SftpClient, size: Option<u64>) -> Download {
    client
        .get(
            "/remote/file.bin".to_string(),
            "/local/file.bin".to_string(),
            DownloadOpening::Ready { remote_file_size: size },
        )
        .unwrap()
}

struct Run {
    result: Option<Result<FileTransferOperationResult, SftpError>>,
    local: Vec<u8>,
    most_in_flight: usize,
    chunks_sent: usize,
}

/// Downloads `data`. A send completes only when the download waits for
/// one; `pick` says which of the sends in flight completes then. The
/// caller's cancellation fires before the read that would yield chunk
/// `cancel_at`.
fn download(
    data: &[u8],
    io_size: usize,
    concurrency: usize,
    cancel_at: Option<usize>,
    mut pick: impl FnMut(usize) -> usize,
) -> Run {
    let client = client(io_size, concurrency);
    let mut download = start(&client, Some(data.len() as u64));
    let mut writer = download.writer();
    let mut local = Vec::new();
    let mut in_flight: Vec<(usize, Vec<u8>)> = Vec::new();
    let mut most_in_flight = 0;
    let mut offset = 0;
    let mut action = PipelineAction::Read;
    loop {
        action = match action {
            PipelineAction::Read => {
                if cancel_at == Some(download.next_sequence()) {
                    download.step(DownloadEvent::CancelRequested)
                } else {
                    let request = download.read_request();
                    assert!(request.buffer.is_empty());
                    let len = (request.len as usize).min(data.len() - offset);
                    if len == 0 {
                        download.step(DownloadEvent::Read(None))
                    } else {
                        let mut buffer = request.buffer;
                        buffer.extend_from_slice(&data[offset..offset + len]);
                        offset += len;
                        download.step(DownloadEvent::Read(Some(buffer)))
                    }
                }
            }
            PipelineAction::Send { sequence, payload, then_wait } => {
                in_flight.push((sequence, payload));
                most_in_flight = most_in_flight.max(in_flight.len());
                assert_eq!(download.in_flight(), in_flight.len());
                assert_eq!(then_wait, in_flight.len() >= concurrency);
                download.awaited()
            }
            PipelineAction::AwaitSend => {
                let (sequence, payload) = in_flight.remove(pick(in_flight.len()));
                for chunk in writer.accept(sequence, payload) {
                    local.extend_from_slice(&chunk);
                }
                download.step(DownloadEvent::SendFinished)
            }
            PipelineAction::AwaitWriter => download.step(DownloadEvent::WriterFinished),
            PipelineAction::Finish => break,
        };
    }
    let chunks_sent = download.next_sequence();
    Run { result: download.result(), local, most_in_flight, chunks_sent }
}

/// Uploads `data` with the first send in flight completing last.
fn uploaded(data: &[u8], io_size: usize, concurrency: usize) -> Vec<u8> {
    let client = client(io_size, concurrency);
    let mut upload = client
        .put(
            "/local/file.bin".to_string(),
            "/remote/file.bin".to_string(),
            UploadOpening::Ready { local_file_size: data.len() as u64 },
        )
        .unwrap();
    let mut writer = upload.writer();
    let mut remote = Vec::new();
    let mut in_flight: Vec<(usize, Vec<u8>)> = Vec::new();
    let mut offset = 0;
    let mut action = PipelineAction::Read;
    loop {
        action = match action {
            PipelineAction::Read => {
                let mut buffer = upload.read_buffer();
                let bytes_read = buffer.len().min(data.len() - offset);
                buffer[..bytes_read].copy_from_slice(&data[offset..offset + bytes_read]);
                offset += bytes_read;
                upload.step(UploadEvent::Read { buffer, bytes_read })
            }
            PipelineAction::Send { sequence, payload, .. } => {
                in_flight.push((sequence, payload));
                upload.awaited()
            }
            PipelineAction::AwaitSend => {
                let (sequence, payload) = in_flight.pop().unwrap();
                for chunk in writer.accept(sequence, payload) {
                    remote.extend_from_slice(&chunk);
                }
                upload.step(UploadEvent::SendFinished)
            }
            PipelineAction::AwaitWriter => upload.step(UploadEvent::WriterFinished),
            PipelineAction::Finish => break,
        };
    }
    assert!(matches!(
        upload.result(),
        Some(Ok(FileTransferOperationResult::Completed(_)))
    ));
    remote
}

fn bytes(len: usize) -> Vec<u8> {
    (0..len).map(|i| (i * 17 % 253) as u8).collect()
}

fn completed(size: u64) -> Option<Result<FileTransferOperationResult, SftpError>> {
    Some(Ok(FileTransferOperationResult::Completed(FileTransferProgress {
        src_file: "/remote/file.bin".to_string(),
        dest_file: "/local/file.bin".to_string(),
        file_size: size,
        percentage_progress: 100,
    })))
}

#[test]
fn download_writes_the_source_whatever_send_completes_first() {
    let data = bytes(1000);
    let mut seed = 99u64;
    let mut random = move |n: usize| {
        seed = seed.wrapping_mul(6364136223846793005).wrapping_add(1442695040888963407);
        (seed >> 33) as usize % n
    };
    for io_size in [1usize, 7, 64, 999, 1000, 1001, 4096] {
        for concurrency in [1usize, 2, 3, 8, 50] {
            let first = download(&data, io_size, concurrency, None, |_| 0);
            let last = download(&data, io_size, concurrency, None, |n| n - 1);
            let any = download(&data, io_size, concurrency, None, &mut random);
            for run in [first, last, any] {
                assert_eq!(run.result, completed(1000));
                assert_eq!(run.local, data);
                assert!(run.most_in_flight <= concurrency);
                assert_eq!(run.chunks_sent, (1000 + io_size - 1) / io_size);
            }
        }
    }
}

#[test]
fn file_comes_back_from_a_round_trip_byte_for_byte() {
    for len in [0usize, 1, 63, 64, 65, 1000, 70_000] {
        let data = bytes(len);
        let remote = uploaded(&data, 64, 8);
        assert_eq!(remote, data);
        let back = download(&remote, 100, 3, None, |n| n / 2);
        assert_eq!(back.result, completed(len as u64));
        assert_eq!(back.local, data);
    }
}

#[test]
fn empty_file_makes_a_round_trip_without_a_chunk() {
    let remote = uploaded(&[], 65536, 8);
    assert!(remote.is_empty());
    let back = download(&remote, 65536, 8, None, |_| 0);
    assert_eq!(back.result, completed(0));
    assert_eq!(back.chunks_sent, 0);
    assert!(back.local.is_empty());
}

#[test]
fn download_cancelled_before_the_first_chunk_echoes_both_paths() {
    let data = bytes(1000);
    let run = download(&data, 100, 4, Some(0), |_| 0);
    assert_eq!(
        run.result,
        Some(Ok(FileTransferOperationResult::Cancelled {
            src_file: "/remote/file.bin".to_string(),
            dest_file: "/local/file.bin".to_string(),
        }))
    );
    assert_eq!(run.chunks_sent, 0);
    assert!(run.local.is_empty());
}

#[test]
fn download_cancelled_midway_still_writes_what_was_sent() {
    let data = bytes(1000);
    let run = download(&data, 100, 4, Some(5), |n| n - 1);
    assert_eq!(
        run.result,
        Some(Ok(FileTransferOperationResult::Cancelled {
            src_file: "/remote/file.bin".to_string(),
            dest_file: "/local/file.bin".to_string(),
        }))
    );
    assert_eq!(run.chunks_sent, 5);
    assert_eq!(run.local, data[..500].to_vec());
}

#[test]
fn read_request_asks_for_one_chunk_into_an_empty_buffer() {
    let client = client(65536, 8);
    let download = start(&client, Some(1));
    let request = download.read_request();
    assert_eq!(request.len, 65536);
    assert_eq!(request.buffer.len(), 0);
    assert!(request.buffer.capacity() >= 65536);
    assert_eq!(download.queue_capacity(), 8);
}

#[test]
fn chunk_is_the_content_of_the_buffer_read() {
    let client = client(16, 8);
    let mut download = start(&client, Some(11));
    let buffer = BytesMut::from(&b"hello world"[..]);
    let action = download.step(DownloadEvent::Read(Some(buffer)));
    assert_eq!(
        action,
        PipelineAction::Send { sequence: 0, payload: b"hello world".to_vec(), then_wait: false }
    );
    // an empty buffer is a chunk, not the end
    let action = download.step(DownloadEvent::Read(Some(BytesMut::new())));
    assert_eq!(
        action,
        PipelineAction::Send { sequence: 1, payload: Vec::new(), then_wait: false }
    );
    assert_eq!(download.step(DownloadEvent::Read(None)), PipelineAction::AwaitSend);
}

#[test]
fn completed_download_without_a_reported_size_fails() {
    let client = client(16, 8);
    let mut download = start(&client, None);
    download.step(DownloadEvent::Read(None));
    download.step(DownloadEvent::WriterFinished);
    assert_eq!(download.result(), Some(Err(SftpError::UnknownSize)));
}

#[test]
fn cancelled_download_without_a_reported_size_is_cancelled() {
    let client = client(16, 8);
    let mut download = start(&client, None);
    download.step(DownloadEvent::CancelRequested);
    download.step(DownloadEvent::WriterFinished);
    assert_eq!(
        download.result(),
        Some(Ok(FileTransferOperationResult::Cancelled {
            src_file: "/remote/file.bin".to_string(),
            dest_file: "/local/file.bin".to_string(),
        }))
    );
}

#[test]
fn download_that_cannot_open_its_source_does_not_start() {
    let client = client(16, 8);
    let result = get(
        &client,
        "a".to_string(),
        "b".to_string(),
        DownloadOpening::RemoteFailed("no such file".to_string()),
    );
    assert_eq!(result.err(), Some(SftpError::RemoteIo("no such file".to_string())));
}

#[test]
fn download_failures_are_local_for_writes_and_remote_for_the_rest() {
    let client = client(8, 2);

    let mut download = start(&client, Some(100));
    download.step(DownloadEvent::ReadFailed("connection lost".to_string()));
    download.step(DownloadEvent::WriterFinished);
    assert_eq!(download.result(), Some(Err(SftpError::RemoteIo("connection lost".to_string()))));

    let mut download = start(&client, Some(100));
    download.step(DownloadEvent::Read(Some(BytesMut::from(&b"12345678"[..]))));
    download.step(DownloadEvent::Read(Some(BytesMut::from(&b"12345678"[..]))));
    download.step(DownloadEvent::SendFailed("queue closed".to_string()));
    assert_eq!(download.result(), Some(Err(SftpError::RemoteIo("queue closed".to_string()))));

    let mut download = start(&client, Some(100));
    download.step(DownloadEvent::Read(None));
    download.step(DownloadEvent::WriterFailed("disk full".to_string()));
    assert_eq!(download.result(), Some(Err(SftpError::LocalIo("disk full".to_string()))));
}
