//! The agent's shared state and persisted settings, as plain values.
//!
//! The running process keeps one `AppState` behind reader-writer locks and a
//! pair of collapsing wake signals; those live outside this crate. Every
//! decision about the fields — status transitions, folder updates, the
//! connected/identity invariant — is made here on the plain record.

use vstd::prelude::*;
use crate::chars::{chars_to_string, push_str_chars};

verus! {

/// Connection status of the WebSocket supervisor.
#[derive(Clone, PartialEq, Eq, Structural, Debug)]
pub enum ConnectionStatus {
    Disconnected,
    Connecting,
    Connected,
    Reconnecting,
    Revoked,
}

/// The snake-case tag a status carries on the wire and in events.
pub open spec fn spec_status_tag(s: ConnectionStatus) -> Seq<char> {
    match s {
        ConnectionStatus::Disconnected => "disconnected"@,
        ConnectionStatus::Connecting => "connecting"@,
        ConnectionStatus::Connected => "connected"@,
        ConnectionStatus::Reconnecting => "reconnecting"@,
        ConnectionStatus::Revoked => "revoked"@,
    }
}

/// The human-readable label of a status.
pub open spec fn spec_status_label(s: ConnectionStatus) -> Seq<char> {
    match s {
        ConnectionStatus::Disconnected => "Disconnected"@,
        ConnectionStatus::Connecting => "Connecting…"@,
        ConnectionStatus::Connected => "Connected"@,
        ConnectionStatus::Reconnecting => "Reconnecting…"@,
        ConnectionStatus::Revoked => "Device Revoked"@,
    }
}

impl ConnectionStatus {
    /// The snake-case tag used on the wire and in events.
    pub fn wire_tag(&self) -> (r: String)
        ensures
            r@ == spec_status_tag(*self),
    {
        match self {
            ConnectionStatus::Disconnected => String::from_str("disconnected"),
            ConnectionStatus::Connecting => String::from_str("connecting"),
            ConnectionStatus::Connected => String::from_str("connected"),
            ConnectionStatus::Reconnecting => String::from_str("reconnecting"),
            ConnectionStatus::Revoked => String::from_str("revoked"),
        }
    }

    /// The label shown in the tray menu.
    pub fn label(&self) -> (r: String)
        ensures
            r@ == spec_status_label(*self),
    {
        match self {
            ConnectionStatus::Disconnected => String::from_str("Disconnected"),
            ConnectionStatus::Connecting => String::from_str("Connecting…"),
            ConnectionStatus::Connected => String::from_str("Connected"),
            ConnectionStatus::Reconnecting => String::from_str("Reconnecting…"),
            ConnectionStatus::Revoked => String::from_str("Device Revoked"),
        }
    }

    /// The tray status line for this status.
    pub fn tray_text(&self) -> (r: String)
        ensures
            r@ == "Status: "@ + spec_status_label(*self),
    {
        let mut out: Vec<char> = Vec::new();
        push_str_chars(&mut out, "Status: ");
        let label = self.label();
        push_str_chars(&mut out, label.as_str());
        chars_to_string(&out)
    }
}

/// Shared application state, as the supervisor and the commands see it.
pub struct AppState {
    /// The bearer token used on connect; set by the frontend.
    pub auth_token: Option<String>,
    /// Current connection status; only the supervisor moves it.
    pub ws_status: ConnectionStatus,
    /// The directories the user has shared, in order.
    pub scoped_folders: Vec<String>,
    /// The human label for this device.
    pub device_name: String,
    /// The identity the server assigned; held exactly while connected.
    pub device_id: Option<String>,
}

impl AppState {
    /// The state invariant: a non-empty device identity is held exactly
    /// while connected.
    pub open spec fn wf(&self) -> bool {
        &&& self.device_id is Some <==> self.ws_status is Connected
        &&& (self.device_id matches Some(id) ==> id@.len() > 0)
    }

    /// A fresh state: no token, disconnected, no folders, a default name.
    pub fn new() -> (r: AppState)
        ensures
            r.auth_token is None,
            r.ws_status is Disconnected,
            r.scoped_folders@.len() == 0,
            r.device_name@ == "My Computer"@,
            r.device_id is None,
            r.wf(),
    {
        AppState {
            auth_token: None,
            ws_status: ConnectionStatus::Disconnected,
            scoped_folders: Vec::new(),
            device_name: String::from_str("My Computer"),
            device_id: None,
        }
    }
}

/// The settings the agent persists between runs.
pub struct Settings {
    pub scoped_folders: Vec<String>,
    pub device_name: Option<String>,
    pub auto_connect: bool,
}

impl Default for Settings {
    /// No folders, no name override, no automatic connect.
    fn default() -> (r: Settings)
        ensures
            r.scoped_folders@.len() == 0,
            r.device_name is None,
            r.auto_connect == false,
    {
        Settings { scoped_folders: Vec::new(), device_name: None, auto_connect: false }
    }
}

/// True when every element of `s` appears there only once.
pub open spec fn distinct_strings(s: Seq<String>) -> bool {
    forall|i: int, j: int| 0 <= i < j < s.len() ==> s[i]@ != s[j]@
}

/// True when some element of `s` has the text `x`.
pub open spec fn holds_string(s: Seq<String>, x: Seq<char>) -> bool {
    exists|i: int| 0 <= i < s.len() && (#[trigger] s[i])@ == x
}

/// The folder list with duplicates dropped: each text kept at its first
/// occurrence, in order. A later occurrence adds nothing, because its text
/// already stands somewhere in the shorter list.
pub open spec fn spec_coalesce(s: Seq<String>) -> Seq<String>
    decreases s.len(),
{
    if s.len() == 0 {
        Seq::empty()
    } else if holds_string(s.drop_last(), s.last()@) {
        spec_coalesce(s.drop_last())
    } else {
        spec_coalesce(s.drop_last()).push(s.last())
    }
}

/// Law: coalescing keeps exactly the texts of the input, no more, no less.
pub proof fn lemma_coalesce_membership(s: Seq<String>, x: Seq<char>)
    ensures
        holds_string(spec_coalesce(s), x) <==> holds_string(s, x),
    decreases s.len(),
{
    if s.len() > 0 {
        lemma_coalesce_membership(s.drop_last(), x);
        let c = spec_coalesce(s);
        let cpre = spec_coalesce(s.drop_last());
        if !holds_string(s.drop_last(), s.last()@) {
            assert(forall|k: int| 0 <= k < cpre.len() ==> c[k] == cpre[k]);
            assert(c[c.len() - 1] == s.last());
        }
        assert(forall|k: int| 0 <= k < s.len() - 1 ==> s.drop_last()[k] == s[k]);
        if holds_string(s, x) {
            let k = choose|k: int| 0 <= k < s.len() && (#[trigger] s[k])@ == x;
            if k < s.len() - 1 {
                assert(holds_string(s.drop_last(), x));
            }
        }
        assert(holds_string(spec_coalesce(s), x) <==> holds_string(s, x));
    }
}

/// Law: coalescing leaves every text exactly once.
pub proof fn lemma_coalesce_distinct(s: Seq<String>)
    ensures
        distinct_strings(spec_coalesce(s)),
        spec_coalesce(s).len() <= s.len(),
    decreases s.len(),
{
    if s.len() > 0 {
        lemma_coalesce_distinct(s.drop_last());
        if !holds_string(s.drop_last(), s.last()@) {
            lemma_coalesce_membership(s.drop_last(), s.last()@);
            let c = spec_coalesce(s);
            let cpre = spec_coalesce(s.drop_last());
            assert(forall|k: int| 0 <= k < cpre.len() ==> c[k] == cpre[k]);
            assert(forall|k: int| 0 <= k < cpre.len() ==> (#[trigger] cpre[k])@ != s.last()@);
        }
    }
}

/// The folder list with duplicates dropped: each text kept at its first
/// occurrence, order preserved. Applied when the scope is saved, so a folder
/// shared twice counts once.
pub fn coalesce_folders(folders: &Vec<String>) -> (r: Vec<String>)
    ensures
        r@ == spec_coalesce(folders@),
        distinct_strings(r@),
        forall|x: Seq<char>| holds_string(r@, x) <==> holds_string(folders@, x),
        r@.len() <= folders@.len(),
{
    let mut out: Vec<String> = Vec::new();
    let mut i: usize = 0;
    while i < folders.len()
        invariant
            i <= folders@.len(),
            out@ == spec_coalesce(folders@.subrange(0, i as int)),
        decreases folders@.len() - i,
    {
        proof {
            let pre = folders@.subrange(0, i as int);
            let post = folders@.subrange(0, i as int + 1);
            assert(post.drop_last() =~= pre);
            assert(post.last() == folders@[i as int]);
            lemma_coalesce_membership(pre, folders@[i as int]@);
        }
        let seen = contains_string(&out, &folders[i]);
        if !seen {
            out.push(folders[i].clone());
        }
        i = i + 1;
        proof {
            assert(out@ =~= spec_coalesce(folders@.subrange(0, i as int)));
        }
    }
    proof {
        assert(folders@.subrange(0, folders@.len() as int) =~= folders@);
        lemma_coalesce_distinct(folders@);
        assert forall|x: Seq<char>|
            holds_string(out@, x) <==> holds_string(folders@, x) by {
            lemma_coalesce_membership(folders@, x);
        };
    }
    out
}

/// True when some element of `v` has the text of `x`.
fn contains_string(v: &Vec<String>, x: &String) -> (r: bool)
    ensures
        r == holds_string(v@, x@),
{
    let mut j: usize = 0;
    while j < v.len()
        invariant
            j <= v@.len(),
            forall|k: int| 0 <= k < j ==> (#[trigger] v@[k])@ != x@,
        decreases v@.len() - j,
    {
        if crate::chars::str_eq(v[j].as_str(), x.as_str()) {
            return true;
        }
        j = j + 1;
    }
    false
}

/// True when a connect command should start a new supervisor: only while no
/// connection is underway. A connected, connecting or reconnecting agent
/// leaves the command a no-op; a revoked or disconnected one may start anew.
pub fn should_connect(status: &ConnectionStatus) -> (r: bool)
    ensures
        r == !(status is Connected || status is Connecting || status is Reconnecting),
{
    match status {
        ConnectionStatus::Connected => false,
        ConnectionStatus::Connecting => false,
        ConnectionStatus::Reconnecting => false,
        ConnectionStatus::Disconnected => true,
        ConnectionStatus::Revoked => true,
    }
}

/// The status answer a frontend query gets: the status tag and the device
/// identity, `null` while none is held.
pub open spec fn spec_status_data(s: AppState) -> Seq<char> {
    "{\"status\":\""@ + spec_status_tag(s.ws_status) + "\",\"device_id\":"@ + (match s.device_id {
        Some(id) => crate::json::spec_quoted(id@),
        None => "null"@,
    }) + "}"@
}

/// Renders the connection-status answer.
pub fn connection_status_data(s: &AppState) -> (r: String)
    ensures
        r@ == spec_status_data(*s),
{
    let mut out: Vec<char> = Vec::new();
    push_str_chars(&mut out, "{\"status\":\"");
    let tag = s.ws_status.wire_tag();
    push_str_chars(&mut out, tag.as_str());
    push_str_chars(&mut out, "\",\"device_id\":");
    match &s.device_id {
        Some(id) => {
            let cs = crate::chars::str_to_chars(id.as_str());
            crate::json::push_quoted(&mut out, &cs);
        },
        None => {
            push_str_chars(&mut out, "null");
        },
    }
    push_str_chars(&mut out, "}");
    proof {
        assert(out@ =~= spec_status_data(*s));
    }
    chars_to_string(&out)
}

} // verus!
