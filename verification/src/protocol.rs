//! The wire protocol: tagged JSON envelopes in both directions.
//!
//! Every frame is a JSON object with a snake-case `type` tag. Outgoing frames
//! are produced here as exact texts; incoming frames arrive as parsed JSON
//! values and are read into typed envelopes. Optional fields are left out of
//! a frame altogether when absent, never written as `null`.

use vstd::prelude::*;
use crate::chars::{chars_to_string, push_str_chars, str_eq, str_to_chars, push_all};
use crate::json::{JVal, spec_quoted, spec_u64_chars, spec_obj_get, push_quoted, u64_to_chars};

verus! {

/// Whether a tool request succeeded.
pub enum ResponseStatus {
    Success,
    Error,
}

/// The status text inside a response frame, quotes included.
pub open spec fn spec_status_text(s: ResponseStatus) -> Seq<char> {
    match s {
        ResponseStatus::Success => "\"success\""@,
        ResponseStatus::Error => "\"error\""@,
    }
}

/// Frames the agent sends to the server.
pub enum OutgoingMessage {
    Register {
        device_name: String,
        platform: String,
        scoped_folders: Vec<String>,
        platform_version: Option<String>,
        app_version: Option<String>,
    },
    Heartbeat,
    Response {
        request_id: String,
        status: ResponseStatus,
        /// The result payload, as already-rendered JSON text.
        data: Option<String>,
        error: Option<String>,
        bytes_transferred: Option<u64>,
    },
    UpdateFolders {
        scoped_folders: Vec<String>,
    },
}

/// Frames the server sends to the agent.
pub enum IncomingMessage {
    Registered {
        device_id: String,
    },
    Request {
        request_id: String,
        tool: String,
        params: JVal,
    },
}

/// The quoted folder texts from index `i` on, comma-separated.
pub open spec fn spec_str_items(ss: Seq<String>, i: int) -> Seq<char>
    decreases ss.len() - i,
{
    if i < 0 || i >= ss.len() {
        Seq::empty()
    } else {
        let one = spec_quoted(ss[i]@);
        (if i > 0 {
            seq![','] + one
        } else {
            one
        }) + spec_str_items(ss, i + 1)
    }
}

/// Appends the quoted texts of `ss` from index `i` on, comma-separated.
pub fn push_str_items(out: &mut Vec<char>, ss: &Vec<String>, i: usize)
    requires
        i <= ss@.len(),
    ensures
        final(out)@ == old(out)@ + spec_str_items(ss@, i as int),
    decreases ss@.len() - i,
{
    if i < ss.len() {
        if i > 0 {
            out.push(',');
        }
        let cs = str_to_chars(ss[i].as_str());
        push_quoted(out, &cs);
        push_str_items(out, ss, i + 1);
        proof {
            assert(out@ =~= old(out)@ + spec_str_items(ss@, i as int));
        }
    }
}

/// The exact text of an outgoing frame.
pub open spec fn spec_outgoing(m: OutgoingMessage) -> Seq<char> {
    match m {
        OutgoingMessage::Register {
            device_name,
            platform,
            scoped_folders,
            platform_version,
            app_version,
        } => "{\"type\":\"register\",\"device_name\":"@ + spec_quoted(device_name@)
            + ",\"platform\":"@ + spec_quoted(platform@) + ",\"scoped_folders\":["@
            + spec_str_items(scoped_folders@, 0) + "]"@ + (match platform_version {
            Some(pv) => ",\"platform_version\":"@ + spec_quoted(pv@),
            None => Seq::empty(),
        }) + (match app_version {
            Some(av) => ",\"app_version\":"@ + spec_quoted(av@),
            None => Seq::empty(),
        }) + "}"@,
        OutgoingMessage::Heartbeat => "{\"type\":\"heartbeat\"}"@,
        OutgoingMessage::Response { request_id, status, data, error, bytes_transferred } => {
            "{\"type\":\"response\",\"request_id\":"@ + spec_quoted(request_id@)
                + ",\"status\":"@ + spec_status_text(status) + (match data {
                Some(d) => ",\"data\":"@ + d@,
                None => Seq::empty(),
            }) + (match error {
                Some(e) => ",\"error\":"@ + spec_quoted(e@),
                None => Seq::empty(),
            }) + (match bytes_transferred {
                Some(n) => ",\"bytes_transferred\":"@ + spec_u64_chars(n),
                None => Seq::empty(),
            }) + "}"@
        },
        OutgoingMessage::UpdateFolders { scoped_folders } => {
            "{\"type\":\"update_folders\",\"scoped_folders\":["@ + spec_str_items(
                scoped_folders@,
                0,
            ) + "]}"@
        },
    }
}

/// The wire text of an outgoing frame.
pub fn encode_outgoing(m: &OutgoingMessage) -> (r: String)
    ensures
        r@ == spec_outgoing(*m),
{
    let mut out: Vec<char> = Vec::new();
    match m {
        OutgoingMessage::Register {
            device_name,
            platform,
            scoped_folders,
            platform_version,
            app_version,
        } => {
            push_str_chars(&mut out, "{\"type\":\"register\",\"device_name\":");
            let dn = str_to_chars(device_name.as_str());
            push_quoted(&mut out, &dn);
            push_str_chars(&mut out, ",\"platform\":");
            let pl = str_to_chars(platform.as_str());
            push_quoted(&mut out, &pl);
            push_str_chars(&mut out, ",\"scoped_folders\":[");
            push_str_items(&mut out, scoped_folders, 0);
            push_str_chars(&mut out, "]");
            match platform_version {
                Some(pv) => {
                    push_str_chars(&mut out, ",\"platform_version\":");
                    let c = str_to_chars(pv.as_str());
                    push_quoted(&mut out, &c);
                },
                None => {},
            }
            match app_version {
                Some(av) => {
                    push_str_chars(&mut out, ",\"app_version\":");
                    let c = str_to_chars(av.as_str());
                    push_quoted(&mut out, &c);
                },
                None => {},
            }
            push_str_chars(&mut out, "}");
            proof {
                assert(out@ =~= spec_outgoing(*m));
            }
        },
        OutgoingMessage::Heartbeat => {
            push_str_chars(&mut out, "{\"type\":\"heartbeat\"}");
            proof {
                assert(out@ =~= spec_outgoing(*m));
            }
        },
        OutgoingMessage::Response { request_id, status, data, error, bytes_transferred } => {
            push_str_chars(&mut out, "{\"type\":\"response\",\"request_id\":");
            let rid = str_to_chars(request_id.as_str());
            push_quoted(&mut out, &rid);
            push_str_chars(&mut out, ",\"status\":");
            match status {
                ResponseStatus::Success => push_str_chars(&mut out, "\"success\""),
                ResponseStatus::Error => push_str_chars(&mut out, "\"error\""),
            }
            match data {
                Some(d) => {
                    push_str_chars(&mut out, ",\"data\":");
                    push_str_chars(&mut out, d.as_str());
                },
                None => {},
            }
            match error {
                Some(e) => {
                    push_str_chars(&mut out, ",\"error\":");
                    let c = str_to_chars(e.as_str());
                    push_quoted(&mut out, &c);
                },
                None => {},
            }
            match bytes_transferred {
                Some(n) => {
                    push_str_chars(&mut out, ",\"bytes_transferred\":");
                    let digits = u64_to_chars(*n);
                    push_all(&mut out, &digits);
                },
                None => {},
            }
            push_str_chars(&mut out, "}");
            proof {
                assert(out@ =~= spec_outgoing(*m));
            }
        },
        OutgoingMessage::UpdateFolders { scoped_folders } => {
            push_str_chars(&mut out, "{\"type\":\"update_folders\",\"scoped_folders\":[");
            push_str_items(&mut out, scoped_folders, 0);
            push_str_chars(&mut out, "]}");
            proof {
                assert(out@ =~= spec_outgoing(*m));
            }
        },
    }
    chars_to_string(&out)
}

/// The typed envelope an incoming JSON value carries, if it carries one.
/// A `registered` frame needs a string `device_id`; a `request` frame needs a
/// string `request_id`, a string `tool` and a `params` member of any shape;
/// any other value has no envelope and is dropped.
pub open spec fn spec_parse_incoming(v: JVal) -> Option<IncomingMessage> {
    match spec_obj_get(v, "type"@) {
        Some(t) => if t is Str {
            if t->Str_0@ == "registered"@ {
                match spec_obj_get(v, "device_id"@) {
                    Some(d) => if d is Str {
                        Some(IncomingMessage::Registered { device_id: d->Str_0 })
                    } else {
                        None
                    },
                    None => None,
                }
            } else if t->Str_0@ == "request"@ {
                match (spec_obj_get(v, "request_id"@), spec_obj_get(v, "tool"@), spec_obj_get(
                    v,
                    "params"@,
                )) {
                    (Some(rid), Some(tool), Some(params)) => if rid is Str && tool is Str {
                        Some(
                            IncomingMessage::Request {
                                request_id: rid->Str_0,
                                tool: tool->Str_0,
                                params,
                            },
                        )
                    } else {
                        None
                    },
                    _ => None,
                }
            } else {
                None
            }
        } else {
            None
        },
        None => None,
    }
}

/// Takes the member `key` out of `v`, when `v` is an object that has it.
fn take_field(v: JVal, key: &str) -> (r: Option<JVal>)
    ensures
        match r {
            Some(x) => spec_obj_get(v, key@) == Some(x),
            None => spec_obj_get(v, key@) is None,
        },
{
    let ghost gv = v;
    match v {
        JVal::Obj(mut fields) => {
            proof {
                assert(spec_obj_get(gv, key@) == crate::json::spec_get(fields@, key@));
            }
            while fields.len() > 0
                invariant
                    gv == v,
                    spec_obj_get(gv, key@) == crate::json::spec_get(fields@, key@),
                decreases fields@.len(),
            {
                proof {
                    assert(fields@.remove(0) =~= fields@.drop_first());
                }
                let ghost fpre = fields@;
                let pair = fields.remove(0);
                if str_eq(pair.0.as_str(), key) {
                    proof {
                        assert(crate::json::spec_get(fpre, key@) == Some(fpre[0].1));
                        assert(spec_obj_get(gv, key@) == Some(pair.1));
                    }
                    return Some(pair.1);
                }
            }
            None
        },
        _ => None,
    }
}

/// Reads an incoming JSON value into its typed envelope.
pub fn parse_incoming(v: JVal) -> (r: Option<IncomingMessage>)
    ensures
        r == spec_parse_incoming(v),
{
    let ty: String = match v.get("type") {
        Some(t) => match t.as_str() {
            Some(s) => s.clone(),
            None => {
                return None;
            },
        },
        None => {
            return None;
        },
    };
    if str_eq(ty.as_str(), "registered") {
        let device_id: String = match v.get("device_id") {
            Some(d) => match d.as_str() {
                Some(s) => s.clone(),
                None => {
                    return None;
                },
            },
            None => {
                return None;
            },
        };
        Some(IncomingMessage::Registered { device_id })
    } else if str_eq(ty.as_str(), "request") {
        let request_id: String = match v.get("request_id") {
            Some(d) => match d.as_str() {
                Some(s) => s.clone(),
                None => {
                    return None;
                },
            },
            None => {
                return None;
            },
        };
        let tool: String = match v.get("tool") {
            Some(d) => match d.as_str() {
                Some(s) => s.clone(),
                None => {
                    return None;
                },
            },
            None => {
                return None;
            },
        };
        let params: JVal = match take_field(v, "params") {
            Some(p) => p,
            None => {
                return None;
            },
        };
        Some(IncomingMessage::Request { request_id, tool, params })
    } else {
        None
    }
}

} // verus!
