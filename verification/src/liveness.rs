//! The watch that a client keeps on the session underneath it.

use crate::types::SftpError;
use vstd::prelude::*;

verus! {

/// Seconds between two liveness probes of a watched session.
pub const CHECK_INTERVAL_SECS: u64 = 10;

/// What the watcher of a session is to do next.
#[derive(Debug, PartialEq, Eq)]
pub enum Watch {
    /// Sleep for `seconds`, then probe the session and report the result.
    SleepThenProbe { seconds: u64 },
    /// The session is dead: end the watch with this error.
    Stop(SftpError),
}

/// One turn of the watch on a session. `probe` is the result of the last
/// liveness probe, `None` before the first. The watch goes on, one probe
/// every [`CHECK_INTERVAL_SECS`] seconds, until a probe fails.
pub fn check_connection(probe: Option<Result<(), String>>) -> (watch: Watch)
    ensures
        watch == match probe {
            Some(Err(reason)) => Watch::Stop(SftpError::Liveness(reason)),
            _ => Watch::SleepThenProbe { seconds: CHECK_INTERVAL_SECS },
        },
{
    match probe {
        Some(Err(reason)) => Watch::Stop(SftpError::Liveness(reason)),
        _ => Watch::SleepThenProbe { seconds: CHECK_INTERVAL_SECS },
    }
}

} // verus!
