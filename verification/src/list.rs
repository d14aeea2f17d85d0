//! Listings: the regular files of one remote directory.

use crate::client::SftpClient;
use crate::platform::{path_from, path_of, system_time, time_of};
use crate::types::{FileMetadata, FileType, SftpError};
use std::time::SystemTime;
use vstd::prelude::*;
use vstd::string::*;

verus! {

/// Kind of a directory entry as the remote side reports it.
#[derive(Debug, Clone, Copy, PartialEq, Eq, Structural)]
pub enum RemoteFileKind {
    Regular,
    Directory,
    /// A symbolic link, a device, a socket or a pipe.
    Other,
}

/// One entry of a remote directory, as enumerated.
#[derive(Debug, PartialEq, Eq)]
pub struct RemoteEntry {
    /// The last component of the entry's name, if the name has one: `.`
    /// and `..` have none.
    pub file_name: Option<String>,
    /// The kind of the entry, if the remote side reported it.
    pub kind: Option<RemoteFileKind>,
    pub size: Option<u64>,
    /// Whole seconds since 1970-01-01 00:00:00 UTC.
    pub accessed_at: Option<u32>,
    /// Whole seconds since 1970-01-01 00:00:00 UTC.
    pub modified_at: Option<u32>,
}

/// What the caller of a listing observed.
#[derive(Debug)]
pub enum ListEvent {
    /// The caller's cancellation signal fired before the next entry came.
    CancelRequested,
    /// The enumeration yielded this entry.
    Entry(RemoteEntry),
    /// The enumeration failed.
    EntryFailed(String),
    /// The enumeration is exhausted.
    EndOfDirectory,
}

/// What the caller of a listing is to do next.
#[derive(Debug, Clone, Copy, PartialEq, Eq, Structural)]
pub enum ListAction {
    /// Wait for the next entry, unless cancellation fires first.
    Next,
    /// Stop enumerating.
    Stop,
}

/// The path of the entry `name` of the directory `dir`, by the rules of
/// POSIX paths: a name that starts at the root stands for itself;
/// otherwise the name follows the directory, after one `/` unless the
/// directory is empty or ends in one.
pub open spec fn joined(dir: Seq<char>, name: Seq<char>) -> Seq<char> {
    if name.len() > 0 && name[0] == '/' {
        name
    } else if dir.len() == 0 || dir.last() == '/' {
        dir + name
    } else {
        dir + seq!['/'] + name
    }
}

/// The file type reported for an entry of the given kind.
pub open spec fn reported_type(kind: RemoteFileKind) -> FileType {
    if kind == RemoteFileKind::Directory {
        FileType::Directory
    } else {
        FileType::Regular
    }
}

/// What a listing of `dir` reports for `entry`: something only for a
/// regular file with a name.
pub open spec fn listed(dir: Seq<char>, entry: RemoteEntry) -> Option<FileMetadata> {
    match (entry.kind, entry.file_name) {
        (Some(RemoteFileKind::Regular), Some(name)) => Some(
            FileMetadata {
                path: path_of(joined(dir, name@)),
                size: entry.size,
                file_type: reported_type(RemoteFileKind::Regular),
                last_accessed_at: time_at(entry.accessed_at),
                last_modified_at: time_at(entry.modified_at),
            },
        ),
        _ => None,
    }
}

/// The point in time that the remote side reported in whole seconds since
/// 1970-01-01 00:00:00 UTC, if it reported one.
pub open spec fn time_at(seconds: Option<u32>) -> Option<SystemTime> {
    match seconds {
        Some(seconds) => time_of(seconds),
        None => None,
    }
}

/// A listing in mathematical terms.
pub struct ListingState {
    pub remote_dir: Seq<char>,
    /// What has been collected, in the order of enumeration.
    pub files: Seq<FileMetadata>,
    /// The error that ended the enumeration, if one did.
    pub failure: Option<SftpError>,
    /// Whether the enumeration is over.
    pub done: bool,
}

impl ListingState {
    /// A listing of `remote_dir` before its first entry.
    pub open spec fn initial(remote_dir: Seq<char>) -> ListingState {
        ListingState { remote_dir, files: Seq::empty(), failure: None, done: false }
    }

    /// The state after `event`. Once the enumeration is over, nothing
    /// changes any more.
    pub open spec fn step(self, event: ListEvent) -> ListingState {
        if self.done {
            self
        } else {
            match event {
                ListEvent::CancelRequested | ListEvent::EndOfDirectory => ListingState {
                    done: true,
                    ..self
                },
                ListEvent::EntryFailed(reason) => ListingState {
                    failure: Some(SftpError::RemoteIo(reason)),
                    done: true,
                    ..self
                },
                ListEvent::Entry(entry) => match listed(self.remote_dir, entry) {
                    Some(file) => ListingState { files: self.files.push(file), ..self },
                    None => self,
                },
            }
        }
    }

    /// The state after a series of events, oldest first.
    pub open spec fn run(self, events: Seq<ListEvent>) -> ListingState
        decreases events.len(),
    {
        if events.len() == 0 {
            self
        } else {
            self.run(events.drop_last()).step(events.last())
        }
    }

    /// What the listing returns: the error if the enumeration failed, else
    /// what was collected.
    pub open spec fn result(self) -> Result<Seq<FileMetadata>, SftpError> {
        match self.failure {
            Some(error) => Err(error),
            None => Ok(self.files),
        }
    }
}

/// Gives the path of the entry `name` of the directory `dir`.
pub fn join_path(dir: &str, name: &str) -> (path: String)
    ensures
        path@ == joined(dir@, name@),
{
    proof {
        reveal_strlit("/");
    }
    if name.unicode_len() > 0 && name.get_char(0) == '/' {
        return String::from_str(name);
    }
    let dir_len = dir.unicode_len();
    let mut path = String::from_str(dir);
    if dir_len > 0 && dir.get_char(dir_len - 1) != '/' {
        path.append("/");
        assert("/"@ =~= seq!['/']);
    }
    path.append(name);
    path
}

fn time_from(seconds: Option<u32>) -> (time: Option<SystemTime>)
    ensures
        time == time_at(seconds),
{
    match seconds {
        Some(seconds) => system_time(seconds),
        None => None,
    }
}

/// Gives what a listing of `remote_dir` reports for `entry`, if anything.
pub fn file_metadata(remote_dir: &str, entry: RemoteEntry) -> (file: Option<FileMetadata>)
    ensures
        file == listed(remote_dir@, entry),
{
    match (entry.kind, entry.file_name) {
        (Some(kind), Some(name)) => {
            if kind == RemoteFileKind::Regular {
                Some(
                    FileMetadata {
                        path: path_from(join_path(remote_dir, name.as_str())),
                        file_type: if kind == RemoteFileKind::Directory {
                            FileType::Directory
                        } else {
                            FileType::Regular
                        },
                        size: entry.size,
                        last_accessed_at: time_from(entry.accessed_at),
                        last_modified_at: time_from(entry.modified_at),
                    },
                )
            } else {
                None
            }
        },
        _ => None,
    }
}

/// One listing under way.
#[derive(Debug)]
pub struct Listing {
    remote_dir: String,
    files: Vec<FileMetadata>,
    failure: Option<SftpError>,
    done: bool,
}

impl View for Listing {
    type V = ListingState;

    closed spec fn view(&self) -> ListingState {
        ListingState {
            remote_dir: self.remote_dir@,
            files: self.files@,
            failure: self.failure,
            done: self.done,
        }
    }
}

/// Starts a listing of `remote_dir`, or says why it cannot start: `opened`
/// is what came of opening the directory.
pub fn ls(_client: &SftpClient, remote_dir: String, opened: Result<(), String>) -> (result: Result<
    Listing,
    SftpError,
>)
    ensures
        match opened {
            Ok(_) => result matches Ok(listing) && listing@ == ListingState::initial(remote_dir@),
            Err(reason) => result matches Err(error) && error == SftpError::RemoteIo(reason),
        },
{
    match opened {
        Ok(_) => {
            let listing = Listing { remote_dir, files: Vec::new(), failure: None, done: false };
            assert(listing@.files =~= Seq::empty());
            Ok(listing)
        },
        Err(reason) => Err(SftpError::RemoteIo(reason)),
    }
}

impl Listing {
    /// Takes what the caller observed and says what to do next.
    pub fn step(&mut self, event: ListEvent) -> (action: ListAction)
        ensures
            final(self)@ == old(self)@.step(event),
            action == if final(self)@.done {
                ListAction::Stop
            } else {
                ListAction::Next
            },
    {
        if self.done {
            return ListAction::Stop;
        }
        match event {
            ListEvent::CancelRequested | ListEvent::EndOfDirectory => {
                self.done = true;
                ListAction::Stop
            },
            ListEvent::EntryFailed(reason) => {
                self.failure = Some(SftpError::RemoteIo(reason));
                self.done = true;
                ListAction::Stop
            },
            ListEvent::Entry(entry) => {
                match file_metadata(self.remote_dir.as_str(), entry) {
                    Some(file) => {
                        self.files.push(file);
                    },
                    None => {},
                }
                ListAction::Next
            },
        }
    }

    /// What the listing returns: the error if the enumeration failed, else
    /// the files collected so far, in the order of enumeration.
    pub fn finish(self) -> (result: Result<Vec<FileMetadata>, SftpError>)
        ensures
            match result {
                Ok(files) => self@.result() == Ok::<Seq<FileMetadata>, SftpError>(files@),
                Err(error) => self@.result() == Err::<Seq<FileMetadata>, SftpError>(error),
            },
    {
        match self.failure {
            Some(error) => Err(error),
            None => Ok(self.files),
        }
    }
}

/// Whatever a directory holds and whatever the caller reports, a listing
/// collects regular files only.
pub proof fn lemma_listing_holds_regular_files_only(remote_dir: Seq<char>, events: Seq<ListEvent>)
    ensures
        forall|i: int|
            0 <= i < ListingState::initial(remote_dir).run(events).files.len() ==> (
            #[trigger] ListingState::initial(remote_dir).run(events).files[i]).file_type
                == FileType::Regular,
    decreases events.len(),
{
    if events.len() > 0 {
        lemma_listing_holds_regular_files_only(remote_dir, events.drop_last());
    }
}

} // verus!
