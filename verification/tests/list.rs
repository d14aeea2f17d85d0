use rusty_sftp::list::{
    file_metadata, join_path, ListAction, ListEvent, Listing, RemoteEntry, RemoteFileKind,
};
use rusty_sftp::session::ClientAttempt;
use rusty_sftp::{
    ls, FileMetadata, FileType, SftpClient, SftpClientConfig, SftpError, SftpSessionManager,
};
use std::path::PathBuf;
use std::time::{Duration, SystemTime};

fn at(seconds: u64) -> Option<SystemTime> {
    Some(SystemTime::UNIX_EPOCH + Duration::from_secs(seconds))
}

fn client() -> SftpClient {
    let mut manager = SftpSessionManager::connect(Ok(())).unwrap();
    manager.create_sftp_client(SftpClientConfig::default(), ClientAttempt::Ready).unwrap()
}

fn listing(dir: &str) -> Listing {
    client().ls(dir.to_string(), Ok(())).unwrap()
}

fn entry(name: &str, kind: RemoteFileKind, size: u64) -> RemoteEntry {
    RemoteEntry {
        file_name: Some(name.to_string()),
        kind: Some(kind),
        size: Some(size),
        accessed_at: Some(1_700_000_000),
        modified_at: Some(1_600_000_000),
    }
}

fn regular(path: &str, size: u64) -> FileMetadata {
    FileMetadata {
        path: PathBuf::from(path),
        size: Some(size),
        file_type: FileType::Regular,
        last_accessed_at: at(1_700_000_000),
        last_modified_at: at(1_600_000_000),
    }
}

#[test]
fn path_of_an_entry_follows_its_directory() {
    assert_eq!(join_path("/remote/dir", "a.txt"), "/remote/dir/a.txt");
    assert_eq!(join_path("/remote/dir/", "a.txt"), "/remote/dir/a.txt");
    assert_eq!(join_path("/", "a.txt"), "/a.txt");
    assert_eq!(join_path("", "a.txt"), "a.txt");
    assert_eq!(join_path("relative", "a.txt"), "relative/a.txt");
    assert_eq!(join_path("/remote/dir", ""), "/remote/dir/");
    assert_eq!(join_path("/remote/dir", "/etc/passwd"), "/etc/passwd");
    assert_eq!(join_path("/données", "été.txt"), "/données/été.txt");
}

#[test]
fn path_joins_as_the_standard_library_joins_paths() {
    let dirs = ["/remote/dir", "/remote/dir/", "/", "", "relative", "a//", "/données"];
    let names = ["a.txt", "", "/etc/passwd", "sub/file", "été.txt", ".", ".."];
    for dir in dirs {
        for name in names {
            let expected = std::path::PathBuf::from(dir).join(name);
            assert_eq!(
                join_path(dir, name),
                expected.to_str().unwrap(),
                "{:?} joined with {:?}",
                dir,
                name
            );
        }
    }
}

#[test]
fn regular_file_with_a_name_is_reported() {
    let file = file_metadata("/remote/dir", entry("a.txt", RemoteFileKind::Regular, 42));
    assert_eq!(file, Some(regular("/remote/dir/a.txt", 42)));
}

#[test]
fn what_the_remote_side_left_out_stays_out() {
    let file = file_metadata(
        "/d",
        RemoteEntry {
            file_name: Some("a".to_string()),
            kind: Some(RemoteFileKind::Regular),
            size: None,
            accessed_at: None,
            modified_at: None,
        },
    );
    assert_eq!(
        file,
        Some(FileMetadata {
            path: PathBuf::from("/d/a"),
            size: None,
            file_type: FileType::Regular,
            last_accessed_at: None,
            last_modified_at: None,
        })
    );
}

#[test]
fn times_are_seconds_since_the_epoch() {
    let entry = RemoteEntry {
        accessed_at: Some(0),
        modified_at: Some(u32::MAX),
        ..entry("a", RemoteFileKind::Regular, 1)
    };
    let file = file_metadata("/d", entry).unwrap();
    assert_eq!(file.last_accessed_at, Some(SystemTime::UNIX_EPOCH));
    assert_eq!(file.last_modified_at, at(4_294_967_295));
}

#[test]
fn entries_that_are_no_regular_files_are_not_reported() {
    assert_eq!(file_metadata("/d", entry("sub", RemoteFileKind::Directory, 4096)), None);
    assert_eq!(file_metadata("/d", entry("link", RemoteFileKind::Other, 9)), None);
    let unknown = RemoteEntry { kind: None, ..entry("a", RemoteFileKind::Regular, 1) };
    assert_eq!(file_metadata("/d", unknown), None);
    let nameless = RemoteEntry { file_name: None, ..entry("a", RemoteFileKind::Regular, 1) };
    assert_eq!(file_metadata("/d", nameless), None);
}

#[test]
fn listing_of_files_and_directories_returns_regular_files_only() {
    let mut listing = listing("/remote/dir");
    let entries = vec![
        RemoteEntry { file_name: None, ..entry(".", RemoteFileKind::Directory, 4096) },
        RemoteEntry { file_name: None, ..entry("..", RemoteFileKind::Directory, 4096) },
        entry("b.txt", RemoteFileKind::Regular, 2),
        entry("sub", RemoteFileKind::Directory, 4096),
        entry("a.txt", RemoteFileKind::Regular, 1),
        entry("socket", RemoteFileKind::Other, 0),
        entry("c.txt", RemoteFileKind::Regular, 3),
    ];
    for entry in entries {
        assert_eq!(listing.step(ListEvent::Entry(entry)), ListAction::Next);
    }
    assert_eq!(listing.step(ListEvent::EndOfDirectory), ListAction::Stop);
    let files = listing.finish().unwrap();
    assert_eq!(
        files,
        vec![
            regular("/remote/dir/b.txt", 2),
            regular("/remote/dir/a.txt", 1),
            regular("/remote/dir/c.txt", 3),
        ]
    );
    assert!(files.iter().all(|file| file.file_type == FileType::Regular));
}

#[test]
fn cancelled_listing_returns_what_it_has_without_error() {
    let mut listing = listing("/d");
    listing.step(ListEvent::Entry(entry("a", RemoteFileKind::Regular, 1)));
    assert_eq!(listing.step(ListEvent::CancelRequested), ListAction::Stop);
    // nothing is collected after the stop
    assert_eq!(
        listing.step(ListEvent::Entry(entry("b", RemoteFileKind::Regular, 2))),
        ListAction::Stop
    );
    assert_eq!(listing.step(ListEvent::EntryFailed("late".to_string())), ListAction::Stop);
    assert_eq!(listing.finish(), Ok(vec![regular("/d/a", 1)]));
}

#[test]
fn listing_cancelled_at_once_is_empty() {
    let mut listing = listing("/d");
    assert_eq!(listing.step(ListEvent::CancelRequested), ListAction::Stop);
    assert_eq!(listing.finish(), Ok(Vec::new()));
}

#[test]
fn failed_enumeration_fails_the_listing() {
    let mut listing = listing("/d");
    listing.step(ListEvent::Entry(entry("a", RemoteFileKind::Regular, 1)));
    assert_eq!(listing.step(ListEvent::EntryFailed("connection lost".to_string())), ListAction::Stop);
    assert_eq!(listing.finish(), Err(SftpError::RemoteIo("connection lost".to_string())));
}

#[test]
fn listing_of_a_directory_that_cannot_be_opened_does_not_start() {
    let result = ls(&client(), "/d".to_string(), Err("no such directory".to_string()));
    assert_eq!(result.err(), Some(SftpError::RemoteIo("no such directory".to_string())));
}

#[test]
fn unfinished_listing_returns_what_it_has() {
    let mut listing = listing("/d");
    listing.step(ListEvent::Entry(entry("a", RemoteFileKind::Regular, 1)));
    assert_eq!(listing.finish(), Ok(vec![regular("/d/a", 1)]));
}
