use rusty_sftp::liveness::{Watch, CHECK_INTERVAL_SECS};
use rusty_sftp::{check_connection, SftpError};

#[test]
fn watch_sleeps_ten_seconds_before_each_probe() {
    assert_eq!(CHECK_INTERVAL_SECS, 10);
    assert_eq!(check_connection(None), Watch::SleepThenProbe { seconds: 10 });
    assert_eq!(check_connection(Some(Ok(()))), Watch::SleepThenProbe { seconds: 10 });
}

#[test]
fn watch_ends_when_a_probe_fails() {
    assert_eq!(
        check_connection(Some(Err("master process exited".to_string()))),
        Watch::Stop(SftpError::Liveness("master process exited".to_string()))
    );
}
