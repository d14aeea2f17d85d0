//! Paths and points in time as the standard library has them.

use openssh_sftp_client::UnixTimeStamp;
use std::path::PathBuf;
use std::time::SystemTime;
use vstd::prelude::*;

verus! {

/// `std::path::PathBuf`. The verifier sees none of its fields.
#[verifier::external_type_specification]
#[verifier::external_body]
pub struct ExPathBuf(PathBuf);

/// `std::time::SystemTime`. The verifier sees none of its fields.
#[verifier::external_type_specification]
#[verifier::external_body]
pub struct ExSystemTime(SystemTime);

/// `<PathBuf as Clone>::clone` gives an equal path.
pub assume_specification[ <PathBuf as Clone>::clone ](path: &PathBuf) -> (copy: PathBuf)
    ensures
        copy == *path,
;

/// The path that a text spells out.
pub uninterp spec fn path_of(text: Seq<char>) -> PathBuf;

/// The point in time that lies `seconds` whole seconds after 1970-01-01
/// 00:00:00 UTC, where `SystemTime` has such a point.
pub uninterp spec fn time_of(seconds: u32) -> Option<SystemTime>;

/// `PathBuf::from` on a `String` takes the text over as a path, unchanged.
/// The contract claims only that the path depends on the text alone.
#[verifier::external_body]
pub(crate) fn path_from(text: String) -> (path: PathBuf)
    ensures
        path == path_of(text@),
{
    PathBuf::from(text)
}

/// `UnixTimeStamp::from_raw` of `openssh_sftp_client` takes the seconds,
/// unless adding them to the epoch leaves the range of `SystemTime`, and
/// `UnixTimeStamp::as_system_time` adds them to the epoch. The contract
/// claims only that the result depends on the seconds alone.
#[verifier::external_body]
pub(crate) fn system_time(seconds: u32) -> (time: Option<SystemTime>)
    ensures
        time == time_of(seconds),
{
    UnixTimeStamp::from_raw(seconds).map(UnixTimeStamp::as_system_time)
}

} // verus!
