//! Lifecycle of the transport session that the clients of one manager share.
//!
//! The manager counts the clients that share its session. The session may
//! be torn down only by the manager, and only while no client shares it.

use crate::client::SftpClient;
use crate::types::{SftpClientConfig, SftpError};
use vstd::prelude::*;
use vstd::string::*;

verus! {

/// A manager in mathematical terms.
pub enum SessionState {
    /// No live session: the state before a connection and after a close or
    /// a failed liveness probe.
    Disconnected,
    /// A live session, shared with `clients` clients: with the manager it
    /// has `clients + 1` owners.
    Connected { clients: nat },
}

/// What came of the outside work that creating a client needs: a liveness
/// probe of the session, then the start of the file-transfer subsystem on it.
#[derive(Debug, PartialEq, Eq)]
pub enum ClientAttempt {
    /// The probe failed; the subsystem was not started.
    SessionDead,
    /// The probe succeeded, the start of the subsystem failed.
    SubsystemFailed(String),
    /// Both succeeded.
    Ready,
}

/// How host keys that are not yet known are treated when connecting.
#[derive(Debug, Clone, Copy, PartialEq, Eq, Structural)]
pub enum KnownHosts {
    /// Refuse hosts whose key is unknown.
    Strict,
    /// Accept and remember the key of an unknown host.
    Add,
    /// Accept any key.
    Accept,
}

/// What to ask of the transport layer to establish a session.
#[derive(Debug, PartialEq, Eq)]
pub struct ConnectRequest {
    /// Where to connect, as `ssh://user@host`.
    pub destination: String,
    pub known_hosts: KnownHosts,
    /// Seconds to wait for the connection.
    pub connect_timeout_secs: u64,
}

/// The destination of a session: `ssh://`, the user, `@`, the host.
pub open spec fn destination_of(username: Seq<char>, host: Seq<char>) -> Seq<char> {
    seq!['s', 's', 'h', ':', '/', '/'] + username + seq!['@'] + host
}

impl SessionState {
    /// The state after a liveness probe, and the answer given to the caller.
    pub open spec fn probed(self, alive: bool) -> (SessionState, bool) {
        match self {
            SessionState::Connected { clients } if alive => (self, true),
            _ => (SessionState::Disconnected, false),
        }
    }

    /// The state after an attempt to create a client, and whether it gave one.
    pub open spec fn client_created(self, attempt: ClientAttempt) -> (
        SessionState,
        Result<(), SftpError>,
    ) {
        match self {
            SessionState::Disconnected => (self, Err(SftpError::NotConnected)),
            SessionState::Connected { clients } => match attempt {
                ClientAttempt::SessionDead => (self, Err(SftpError::NotConnected)),
                ClientAttempt::SubsystemFailed(reason) => (self, Err(SftpError::RemoteIo(reason))),
                ClientAttempt::Ready => (SessionState::Connected { clients: clients + 1 }, Ok(())),
            },
        }
    }

    /// The state after `count` clients were created, each on a session
    /// that was live and with a subsystem that started.
    pub open spec fn clients_created(self, count: nat) -> SessionState
        decreases count,
    {
        if count == 0 {
            self
        } else {
            self.client_created(ClientAttempt::Ready).0.clients_created((count - 1) as nat)
        }
    }

    /// The state after one client was closed or dropped.
    pub open spec fn client_released(self) -> SessionState {
        match self {
            SessionState::Connected { clients } if clients > 0 => SessionState::Connected {
                clients: (clients - 1) as nat,
            },
            _ => self,
        }
    }

    /// The state after `count` clients were closed or dropped.
    pub open spec fn clients_released(self, count: nat) -> SessionState
        decreases count,
    {
        if count == 0 {
            self
        } else {
            self.client_released().clients_released((count - 1) as nat)
        }
    }

    /// The state after an attempt to close the session, and its result:
    /// the session is torn down only if no client shares it; otherwise
    /// nothing changes.
    pub open spec fn closed(self) -> (SessionState, Result<(), SftpError>) {
        match self {
            SessionState::Disconnected => (self, Err(SftpError::NotConnected)),
            SessionState::Connected { clients } => if clients == 0 {
                (SessionState::Disconnected, Ok(()))
            } else {
                (self, Err(SftpError::Ownership))
            },
        }
    }
}

/// Owns the transport session and hands out the clients that share it.
#[derive(Debug)]
pub struct SftpSessionManager {
    connected: bool,
    clients: usize,
}

impl View for SftpSessionManager {
    type V = SessionState;

    closed spec fn view(&self) -> SessionState {
        if self.connected {
            SessionState::Connected { clients: self.clients as nat }
        } else {
            SessionState::Disconnected
        }
    }
}

impl SftpSessionManager {
    /// A manager without a session.
    pub fn new() -> (manager: Self)
        ensures
            manager@ == SessionState::Disconnected,
    {
        SftpSessionManager { connected: false, clients: 0 }
    }

    /// What to ask of the transport layer to reach `host` as `username`:
    /// any host key is accepted and the attempt may take a minute.
    pub fn connect_request(host: &str, username: &str) -> (request: ConnectRequest)
        ensures
            request.destination@ == destination_of(username@, host@),
            request.known_hosts == KnownHosts::Accept,
            request.connect_timeout_secs == 60,
    {
        proof {
            reveal_strlit("ssh://");
            reveal_strlit("@");
        }
        let mut destination = String::from_str("ssh://");
        destination.append(username);
        destination.append("@");
        destination.append(host);
        assert(destination@ =~= destination_of(username@, host@));
        ConnectRequest { destination, known_hosts: KnownHosts::Accept, connect_timeout_secs: 60 }
    }

    /// The manager of a session that was just established, or the error if
    /// establishing it failed.
    pub fn connect(established: Result<(), String>) -> (result: Result<Self, SftpError>)
        ensures
            match established {
                Ok(_) => result matches Ok(manager) && manager@ == (SessionState::Connected {
                    clients: 0,
                }),
                Err(reason) => result matches Err(error) && error == SftpError::Connection(
                    reason,
                ),
            },
    {
        match established {
            Ok(_) => Ok(SftpSessionManager { connected: true, clients: 0 }),
            Err(reason) => Err(SftpError::Connection(reason)),
        }
    }

    /// Whether the manager holds a session, as far as it knows.
    pub fn is_connected(&self) -> (connected: bool)
        ensures
            connected == (self@ is Connected),
    {
        self.connected
    }

    /// The number of clients that share the session.
    pub fn clients(&self) -> (count: usize)
        ensures
            count == match self@ {
                SessionState::Connected { clients } => clients,
                SessionState::Disconnected => 0,
            },
    {
        if self.connected {
            self.clients
        } else {
            0
        }
    }

    /// Gives a new client that shares the session, if the manager is
    /// connected and the outside work succeeded.
    ///
    /// The machine counts the clients: there must be room for one more.
    pub fn create_sftp_client(&mut self, config: SftpClientConfig, attempt: ClientAttempt) -> (result:
        Result<SftpClient, SftpError>)
        requires
            old(self)@ matches SessionState::Connected { clients } ==> clients < usize::MAX,
        ensures
            final(self)@ == old(self)@.client_created(attempt).0,
            match result {
                Ok(client) => old(self)@.client_created(attempt).1 is Ok && client.config()
                    == config,
                Err(error) => old(self)@.client_created(attempt).1 == Err::<(), SftpError>(error),
            },
    {
        if !self.connected {
            return Err(SftpError::NotConnected);
        }
        match attempt {
            ClientAttempt::SessionDead => Err(SftpError::NotConnected),
            ClientAttempt::SubsystemFailed(reason) => Err(SftpError::RemoteIo(reason)),
            ClientAttempt::Ready => {
                self.clients = self.clients + 1;
                Ok(SftpClient::new(config))
            },
        }
    }

    /// Records that one client was closed or dropped.
    pub fn release_client(&mut self)
        ensures
            final(self)@ == old(self)@.client_released(),
    {
        if self.connected && self.clients > 0 {
            self.clients = self.clients - 1;
        }
    }

    /// Tears the session down if no client shares it. On `Ok` the caller
    /// closes the transport; on `Err` nothing has changed.
    pub fn close(&mut self) -> (result: Result<(), SftpError>)
        ensures
            final(self)@ == old(self)@.closed().0,
            result == old(self)@.closed().1,
    {
        if !self.connected {
            Err(SftpError::NotConnected)
        } else if self.clients == 0 {
            self.connected = false;
            Ok(())
        } else {
            Err(SftpError::Ownership)
        }
    }

    /// Takes the result of a liveness probe. A failed probe disconnects the
    /// manager. Answers whether the session is live.
    pub fn connected(&mut self, alive: bool) -> (live: bool)
        ensures
            final(self)@ == old(self)@.probed(alive).0,
            live == old(self)@.probed(alive).1,
    {
        if self.connected && alive {
            true
        } else {
            self.connected = false;
            self.clients = 0;
            false
        }
    }
}

/// The clients of a manager are counted: after `created` clients were
/// created and `released` of them closed or dropped, the others share the
/// session.
pub proof fn lemma_clients_are_counted(created: nat, released: nat)
    requires
        released <= created,
    ensures
        (SessionState::Connected { clients: 0 }).clients_created(created).clients_released(
            released,
        ) == (SessionState::Connected { clients: (created - released) as nat }),
{
    lemma_created_on_top(0, created);
    lemma_released_from(created, released);
}

proof fn lemma_created_on_top(clients: nat, created: nat)
    ensures
        (SessionState::Connected { clients }).clients_created(created) == (
            SessionState::Connected { clients: clients + created }),
    decreases created,
{
    if created > 0 {
        lemma_created_on_top(clients + 1, (created - 1) as nat);
    }
}

proof fn lemma_released_from(clients: nat, released: nat)
    requires
        released <= clients,
    ensures
        (SessionState::Connected { clients }).clients_released(released) == (
            SessionState::Connected { clients: (clients - released) as nat }),
    decreases released,
{
    if released > 0 {
        lemma_released_from((clients - 1) as nat, (released - 1) as nat);
    }
}

/// While any client that was created from a manager has not been closed or
/// dropped, closing the manager fails with an ownership error and leaves it
/// connected, with the same clients. Once every client has been closed or
/// dropped, closing the manager succeeds and disconnects it.
pub proof fn lemma_close_waits_for_every_client(created: nat, released: nat)
    requires
        released <= created,
    ensures
        released < created ==> (SessionState::Connected { clients: 0 }).clients_created(
            created,
        ).clients_released(released).closed() == (
            SessionState::Connected { clients: (created - released) as nat },
            Err::<(), SftpError>(SftpError::Ownership),
        ),
        released == created ==> (SessionState::Connected { clients: 0 }).clients_created(
            created,
        ).clients_released(released).closed() == (
            SessionState::Disconnected,
            Ok::<(), SftpError>(()),
        ),
{
    lemma_clients_are_counted(created, released);
}

/// A failed liveness probe answers `false` and disconnects the manager, and
/// a disconnected manager stays so: whatever comes of later probes and
/// attempts, no client is created from it.
pub proof fn lemma_dead_session_gives_no_client(
    state: SessionState,
    attempt: ClientAttempt,
    later_probe: bool,
)
    ensures
        state.probed(false) == (SessionState::Disconnected, false),
        SessionState::Disconnected.probed(later_probe) == (SessionState::Disconnected, false),
        SessionState::Disconnected.client_created(attempt) == (
            SessionState::Disconnected,
            Err::<(), SftpError>(SftpError::NotConnected),
        ),
{
}

} // verus!
