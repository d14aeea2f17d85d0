use rusty_sftp::SftpError;

#[test]
fn each_error_says_what_failed_and_why() {
    assert_eq!(
        SftpError::Connection("auth failed".to_string()).message(),
        "failed to connect: auth failed"
    );
    assert_eq!(
        SftpError::Liveness("master exited".to_string()).message(),
        "session is dead: master exited"
    );
    assert_eq!(SftpError::NotConnected.message(), "session is not connected");
    assert_eq!(SftpError::LocalIo("disk full".to_string()).message(), "local file: disk full");
    assert_eq!(SftpError::RemoteIo("quota".to_string()).message(), "remote file: quota");
    assert_eq!(
        SftpError::Ownership.message(),
        "failed to close session: clients still share it"
    );
    assert_eq!(SftpError::UnknownSize.message(), "size of the remote file is unknown");
}

#[test]
fn error_without_a_reason_still_names_what_failed() {
    assert_eq!(SftpError::RemoteIo(String::new()).message(), "remote file: ");
}
