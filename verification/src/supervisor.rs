//! The connection supervisor: a reconnecting client as a state machine.
//!
//! The running loop — dialing, reading frames, timers, sleeps — lives outside
//! this crate and feeds outcomes in. Every decision is made here: which
//! status follows which outcome, when reconnection happens and after what
//! wait, which close codes end the agent, and the exact frames that go out.
//! Each decision hands back the ordered observer events it caused; the loop
//! forwards them. Outbound frames leave through a single writer in the loop,
//! in the order the decisions here produce them.

use vstd::prelude::*;
use crate::state::{AppState, ConnectionStatus};
use crate::protocol::{OutgoingMessage, ResponseStatus, spec_outgoing, encode_outgoing};

verus! {

/// Relies on rand::random: a value drawn from the thread-local generator.
/// Nothing is promised of the value.
pub assume_specification<T>[ rand::random::<T> ]() -> (r: T)
    where
        rand::distributions::Standard: rand::distributions::Distribution<T>,
;

/// What the observer layer is told as the supervisor works.
pub enum ObserverEvent {
    /// The connection status changed to this value.
    StatusChanged(ConnectionStatus),
    /// The server revoked this device; its token is no longer valid.
    TokenInvalid,
    /// A fresh token is wanted before the next connection attempt.
    TokenRefreshNeeded,
    /// A tool request with this identifier and tool name was taken up.
    RequestStarted(String, String),
    /// The request with this identifier finished, well or not.
    RequestCompleted(String, bool),
}

/// How a connection attempt or session ended.
pub enum SessionEnd {
    /// The server closed with this code.
    Closed(u16),
    /// The server closed without a code.
    ClosedNoCode,
    /// The stream ended or failed mid-session.
    StreamEnded,
    /// Connecting or registering failed.
    ConnectFailed,
}

/// What the loop does after a session ends.
pub enum EndAction {
    /// No reconnection: the agent was revoked or asked to shut down.
    Stop,
    /// Reconnect after this wait, with no backoff: the session merely expired.
    FastReconnect { wait_ms: u64 },
    /// Reconnect after this backoff wait.
    Reconnect { wait_ms: u64 },
}

/// The close code that revokes the device, for good.
pub open spec fn spec_close_revoked() -> u16 {
    4010
}

/// The close code that expires the session: reconnect at once.
pub open spec fn spec_close_session_expired() -> u16 {
    4011
}

/// The backoff base before attempt `attempt`, in milliseconds: two to the
/// power of the attempt count (capped at four doublings), in seconds, and
/// never more than thirty seconds.
pub open spec fn spec_backoff_base_ms(attempt: u32) -> int {
    if attempt == 0 {
        1000
    } else if attempt == 1 {
        2000
    } else if attempt == 2 {
        4000
    } else if attempt == 3 {
        8000
    } else {
        16000
    }
}

/// Law: the backoff base never passes thirty seconds, and with any jitter
/// factor below 1.2 the wait never passes thirty-six seconds.
pub proof fn lemma_backoff_bounded(attempt: u32, jitter: int)
    requires
        0 <= jitter < 400,
    ensures
        spec_backoff_base_ms(attempt) <= 30000,
        spec_backoff_base_ms(attempt) * (800 + jitter) / 1000 <= 36000,
{
    assert(spec_backoff_base_ms(attempt) * (800 + jitter) / 1000 <= 36000) by (nonlinear_arith)
        requires
            0 <= jitter < 400,
            spec_backoff_base_ms(attempt) <= 30000,
    ;
}

/// The backoff base before attempt `attempt`, in milliseconds.
fn backoff_base_ms(attempt: u32) -> (r: u64)
    ensures
        r == spec_backoff_base_ms(attempt),
{
    if attempt == 0 {
        1000
    } else if attempt == 1 {
        2000
    } else if attempt == 2 {
        4000
    } else if attempt == 3 {
        8000
    } else {
        16000
    }
}

/// The wait before attempt `attempt`: the backoff base scaled by a random
/// factor in [0.8, 1.2), never more than thirty-six seconds.
pub fn backoff_wait_ms(attempt: u32) -> (r: u64)
    ensures
        r <= 36000,
        exists|j: int|
            0 <= j < 400 && r == #[trigger] (spec_backoff_base_ms(attempt) * (800 + j) / 1000),
{
    let base = backoff_base_ms(attempt);
    let j: u64 = rand::random::<u64>() % 400;
    proof {
        lemma_backoff_bounded(attempt, j as int);
        assert(base * (800 + j) <= 30000 * 1200) by (nonlinear_arith)
            requires
                base <= 30000,
                j < 400,
        ;
    }
    let r = base * (800 + j) / 1000;
    r
}

/// The supervisor: the shared state it moves, and its consecutive-failure
/// count.
pub struct Supervisor {
    pub state: AppState,
    pub attempt: u32,
}

impl Supervisor {
    /// The supervisor's invariant is the state's.
    pub open spec fn wf(&self) -> bool {
        self.state.wf()
    }

    /// A supervisor over the given state.
    pub fn new(state: AppState) -> (r: Supervisor)
        requires
            state.wf(),
        ensures
            r.state == state,
            r.attempt == 0,
            r.wf(),
    {
        Supervisor { state, attempt: 0 }
    }

    /// A connection attempt begins: the status turns `Connecting` and any
    /// stale device identity is dropped.
    pub fn begin_attempt(&mut self) -> (ev: ObserverEvent)
        requires
            old(self).wf(),
        ensures
            final(self).wf(),
            final(self).state.ws_status is Connecting,
            final(self).state.device_id is None,
            final(self).state.auth_token == old(self).state.auth_token,
            final(self).state.scoped_folders == old(self).state.scoped_folders,
            final(self).state.device_name == old(self).state.device_name,
            final(self).attempt == old(self).attempt,
            ev == ObserverEvent::StatusChanged(ConnectionStatus::Connecting),
    {
        self.state.ws_status = ConnectionStatus::Connecting;
        self.state.device_id = None;
        ObserverEvent::StatusChanged(ConnectionStatus::Connecting)
    }

    /// The server acknowledged registration: the agent is connected under
    /// the given identity and the failure count starts over. An identity is
    /// never empty; the loop treats an empty one as a failed registration.
    pub fn on_registered(&mut self, device_id: String) -> (ev: ObserverEvent)
        requires
            old(self).wf(),
            device_id@.len() > 0,
        ensures
            final(self).wf(),
            final(self).state.ws_status is Connected,
            final(self).state.device_id == Some(device_id),
            final(self).attempt == 0,
            final(self).state.auth_token == old(self).state.auth_token,
            final(self).state.scoped_folders == old(self).state.scoped_folders,
            final(self).state.device_name == old(self).state.device_name,
            ev == ObserverEvent::StatusChanged(ConnectionStatus::Connected),
    {
        self.state.ws_status = ConnectionStatus::Connected;
        self.state.device_id = Some(device_id);
        self.attempt = 0;
        ObserverEvent::StatusChanged(ConnectionStatus::Connected)
    }

    /// A session or attempt ended: decide what follows.
    ///
    /// The revocation close code is terminal: the agent turns `Revoked`,
    /// tells the observer the token is no longer valid, and does not
    /// reconnect. A requested shutdown turns the agent `Disconnected` and
    /// stops it. The session-expiry close code reconnects after a short
    /// fixed wait, skipping backoff, with the failure count put back to
    /// zero. Any other end reconnects after the jittered backoff wait and
    /// first asks the observer for a fresh token; the failure count starts
    /// over only when the ending session had registered (it was `Connected`
    /// when the end came), and otherwise rises — a clean close without a
    /// successful registration counts as a failure.
    pub fn on_session_end(&mut self, outcome: &SessionEnd, shutdown_requested: bool) -> (r: (
        EndAction,
        Vec<ObserverEvent>,
    ))
        requires
            old(self).wf(),
        ensures
            final(self).wf(),
            final(self).state.auth_token == old(self).state.auth_token,
            final(self).state.scoped_folders == old(self).state.scoped_folders,
            final(self).state.device_name == old(self).state.device_name,
            final(self).state.device_id is None,
            (match outcome {
                SessionEnd::Closed(code) => *code == spec_close_revoked(),
                _ => false,
            }) ==> {
                &&& final(self).state.ws_status is Revoked
                &&& r.0 is Stop
                &&& r.1@ =~= seq![
                    ObserverEvent::StatusChanged(ConnectionStatus::Revoked),
                    ObserverEvent::TokenInvalid,
                ]
            },
            (!(outcome matches SessionEnd::Closed(code) && *code == spec_close_revoked())
                && shutdown_requested) ==> {
                &&& final(self).state.ws_status is Disconnected
                &&& r.0 is Stop
                &&& r.1@ =~= seq![ObserverEvent::StatusChanged(ConnectionStatus::Disconnected)]
            },
            (!(outcome matches SessionEnd::Closed(code) && *code == spec_close_revoked())
                && !shutdown_requested) ==> {
                &&& final(self).state.ws_status is Reconnecting
                &&& final(self).attempt == (if (outcome matches SessionEnd::Closed(c) && *c
                    == spec_close_session_expired()) || (old(self).state.ws_status is Connected
                    && !(outcome is ConnectFailed)) {
                    0int
                } else if old(self).attempt == 0xffff_ffffu32 {
                    old(self).attempt as int
                } else {
                    old(self).attempt + 1
                })
                &&& r.1@ =~= seq![
                    ObserverEvent::StatusChanged(ConnectionStatus::Reconnecting),
                    ObserverEvent::TokenRefreshNeeded,
                ]
                &&& (match r.0 {
                    EndAction::Stop => false,
                    EndAction::FastReconnect { wait_ms } => {
                        &&& outcome matches SessionEnd::Closed(c) && *c
                            == spec_close_session_expired()
                        &&& wait_ms == 500
                    },
                    EndAction::Reconnect { wait_ms } => {
                        &&& !(outcome matches SessionEnd::Closed(c) && *c
                            == spec_close_session_expired())
                        &&& wait_ms <= 36000
                        &&& exists|j: int|
                            0 <= j < 400 && wait_ms == #[trigger] (spec_backoff_base_ms(
                                final(self).attempt,
                            ) * (800 + j) / 1000)
                    },
                })
            },
    {
        let revoked = match outcome {
            SessionEnd::Closed(code) => *code == 4010,
            _ => false,
        };
        if revoked {
            self.state.ws_status = ConnectionStatus::Revoked;
            self.state.device_id = None;
            let mut events: Vec<ObserverEvent> = Vec::new();
            events.push(ObserverEvent::StatusChanged(ConnectionStatus::Revoked));
            events.push(ObserverEvent::TokenInvalid);
            return (EndAction::Stop, events);
        }
        if shutdown_requested {
            self.state.ws_status = ConnectionStatus::Disconnected;
            self.state.device_id = None;
            let mut events: Vec<ObserverEvent> = Vec::new();
            events.push(ObserverEvent::StatusChanged(ConnectionStatus::Disconnected));
            return (EndAction::Stop, events);
        }
        let expired = match outcome {
            SessionEnd::Closed(code) => *code == 4011,
            _ => false,
        };
        let had_registered = match self.state.ws_status {
            ConnectionStatus::Connected => true,
            _ => false,
        };
        let failed_attempt = match outcome {
            SessionEnd::ConnectFailed => true,
            _ => false,
        };
        self.attempt = if expired || (had_registered && !failed_attempt) {
            0
        } else if self.attempt == 0xffff_ffffu32 {
            self.attempt
        } else {
            self.attempt + 1
        };
        self.state.ws_status = ConnectionStatus::Reconnecting;
        self.state.device_id = None;
        let mut events: Vec<ObserverEvent> = Vec::new();
        events.push(ObserverEvent::StatusChanged(ConnectionStatus::Reconnecting));
        events.push(ObserverEvent::TokenRefreshNeeded);
        if expired {
            (EndAction::FastReconnect { wait_ms: 500 }, events)
        } else {
            let wait_ms = backoff_wait_ms(self.attempt);
            (EndAction::Reconnect { wait_ms }, events)
        }
    }

    /// The registration frame for the current state.
    pub fn register_frame(
        &self,
        platform: String,
        platform_version: Option<String>,
        app_version: Option<String>,
    ) -> (r: String)
        ensures
            r@ == spec_outgoing(
                OutgoingMessage::Register {
                    device_name: self.state.device_name,
                    platform,
                    scoped_folders: self.state.scoped_folders,
                    platform_version,
                    app_version,
                },
            ),
    {
        let folders = crate::tools::clone_strings(&self.state.scoped_folders);
        proof {
            assert(folders@ =~= self.state.scoped_folders@);
        }
        let m = OutgoingMessage::Register {
            device_name: self.state.device_name.clone(),
            platform,
            scoped_folders: folders,
            platform_version,
            app_version,
        };
        let text = encode_outgoing(&m);
        proof {
            assert(text@ =~= spec_outgoing(
                OutgoingMessage::Register {
                    device_name: self.state.device_name,
                    platform,
                    scoped_folders: self.state.scoped_folders,
                    platform_version,
                    app_version,
                },
            ));
        }
        text
    }
}

/// The platform tag the agent reports, from the build's target flags.
pub fn current_platform(is_macos: bool, is_windows: bool) -> (r: String)
    ensures
        is_macos ==> r@ == "macos"@,
        !is_macos && is_windows ==> r@ == "windows"@,
        !is_macos && !is_windows ==> r@ == "linux"@,
{
    if is_macos {
        String::from_str("macos")
    } else if is_windows {
        String::from_str("windows")
    } else {
        String::from_str("linux")
    }
}

/// The keepalive frame.
pub fn heartbeat_frame() -> (r: String)
    ensures
        r@ == spec_outgoing(OutgoingMessage::Heartbeat),
{
    encode_outgoing(&OutgoingMessage::Heartbeat)
}

/// The frame that tells the server the scoped folders changed.
pub fn update_folders_frame(folders: &Vec<String>) -> (r: String)
    ensures
        r@ == spec_outgoing(OutgoingMessage::UpdateFolders { scoped_folders: *folders }),
{
    let cloned = crate::tools::clone_strings(folders);
    proof {
        assert(cloned@ =~= folders@);
    }
    let m = OutgoingMessage::UpdateFolders { scoped_folders: cloned };
    let text = encode_outgoing(&m);
    proof {
        assert(text@ =~= spec_outgoing(
            OutgoingMessage::UpdateFolders { scoped_folders: *folders },
        ));
    }
    text
}

/// The single response frame a dispatched request is answered with: a
/// success with the tool's data and byte count, or an error with its text.
/// The frame carries the request's own identifier, so every request gets
/// exactly one response, under its identifier, in the session it arrived.
pub fn respond_to_request(request_id: &String, result: Result<(String, Option<u64>), String>) -> (r:
    (String, Vec<ObserverEvent>))
    ensures
        (result matches Ok(ok) ==> r.0@ == spec_outgoing(
            OutgoingMessage::Response {
                request_id: *request_id,
                status: ResponseStatus::Success,
                data: Some(ok.0),
                error: None,
                bytes_transferred: ok.1,
            },
        )),
        (result matches Err(e) ==> r.0@ == spec_outgoing(
            OutgoingMessage::Response {
                request_id: *request_id,
                status: ResponseStatus::Error,
                data: None,
                error: Some(e),
                bytes_transferred: None,
            },
        )),
        r.1@ =~= seq![
            ObserverEvent::RequestCompleted(*request_id, result is Ok),
        ],
    {
        let ok = result.is_ok();
        let m = match result {
            Ok((data, bytes_transferred)) => OutgoingMessage::Response {
                request_id: request_id.clone(),
                status: ResponseStatus::Success,
                data: Some(data),
                error: None,
                bytes_transferred,
            },
            Err(e) => OutgoingMessage::Response {
                request_id: request_id.clone(),
                status: ResponseStatus::Error,
                data: None,
                error: Some(e),
                bytes_transferred: None,
            },
        };
        let text = encode_outgoing(&m);
        let mut events: Vec<ObserverEvent> = Vec::new();
        events.push(ObserverEvent::RequestCompleted(request_id.clone(), ok));
        (text, events)
    }

/// The observer event that marks a request taken up.
pub fn request_started_event(request_id: &String, tool: &String) -> (r: ObserverEvent)
    ensures
        r == ObserverEvent::RequestStarted(*request_id, *tool),
{
    ObserverEvent::RequestStarted(request_id.clone(), tool.clone())
}

} // verus!
