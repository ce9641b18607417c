//! Pairing: trading a short user-visible code for a device token.
//!
//! The exchange itself is one HTTP POST and happens outside this crate. Here
//! stand its moving parts: the claim endpoint derived from the WebSocket URL,
//! the exact body of the claim, and the reading of the server's answer.

use vstd::prelude::*;
use crate::chars::{
    chars_to_string, push_str_chars, str_to_chars, push_all, starts_with,
};
use crate::json::{JVal, spec_quoted, push_quoted};
use crate::tools::spec_str_param;
use crate::protocol::spec_str_items;

verus! {

/// `s` with every occurrence of `from` replaced by `to`, scanning left to
/// right without overlap. An empty `from` changes nothing.
pub open spec fn spec_replace(s: Seq<char>, from: Seq<char>, to: Seq<char>) -> Seq<char>
    decreases s.len(),
{
    if s.len() == 0 || from.len() == 0 {
        s
    } else if starts_with(s, from) {
        to + spec_replace(s.skip(from.len() as int), from, to)
    } else {
        seq![s[0]] + spec_replace(s.drop_first(), from, to)
    }
}

/// True when `from` occurs in `v` at index `i`.
fn chars_match_at(v: &Vec<char>, from: &Vec<char>, i: usize) -> (r: bool)
    requires
        i <= v@.len(),
    ensures
        r == starts_with(v@.skip(i as int), from@),
{
    if v.len() - i < from.len() {
        return false;
    }
    let n = from.len();
    let vlen = v.len();
    let mut j: usize = 0;
    while j < n
        invariant
            n == from@.len(),
            vlen == v@.len(),
            i + n <= vlen,
            j <= n,
            forall|t: int| 0 <= t < j ==> v@[i + t] == from@[t],
        decreases n - j,
    {
        if v[i + j] != from[j] {
            proof {
                assert(v@.skip(i as int)[j as int] != from@[j as int]);
            }
            return false;
        }
        j = j + 1;
    }
    proof {
        assert(v@.skip(i as int).subrange(0, from@.len() as int) =~= from@);
    }
    true
}

/// `s` with every occurrence of `from` replaced by `to`.
pub fn replace_text(s: &str, from: &str, to: &str) -> (r: String)
    ensures
        r@ == spec_replace(s@, from@, to@),
{
    let sv = str_to_chars(s);
    let fv = str_to_chars(from);
    let tv = str_to_chars(to);
    if fv.len() == 0 {
        proof {
            assert(spec_replace(s@, from@, to@) == s@);
        }
        return chars_to_string(&sv);
    }
    let mut out: Vec<char> = Vec::new();
    proof {
        assert(sv@.skip(0) =~= sv@);
    }
    let mut i: usize = 0;
    while i < sv.len()
        invariant
            i <= sv@.len(),
            sv@ == s@,
            fv@ == from@,
            tv@ == to@,
            fv@.len() > 0,
            out@ + spec_replace(sv@.skip(i as int), from@, to@) =~= spec_replace(s@, from@, to@),
        decreases sv@.len() - i,
    {
        if chars_match_at(&sv, &fv, i) {
            push_all(&mut out, &tv);
            proof {
                assert(sv@.skip(i as int).skip(from@.len() as int) =~= sv@.skip(
                    i + from@.len(),
                ));
            }
            i = i + from.unicode_len();
            proof {
                assert(out@ + spec_replace(sv@.skip(i as int), from@, to@) =~= spec_replace(
                    s@,
                    from@,
                    to@,
                ));
            }
        } else {
            out.push(sv[i]);
            proof {
                assert(sv@.skip(i as int).drop_first() =~= sv@.skip(i as int + 1));
                assert(sv@.skip(i as int)[0] == sv@[i as int]);
            }
            i = i + 1;
            proof {
                assert(out@ + spec_replace(sv@.skip(i as int), from@, to@) =~= spec_replace(
                    s@,
                    from@,
                    to@,
                ));
            }
        }
    }
    proof {
        assert(sv@.skip(sv@.len() as int) =~= Seq::<char>::empty());
        assert(out@ =~= spec_replace(s@, from@, to@));
    }
    chars_to_string(&out)
}

/// The HTTP base of the service, from its WebSocket URL: the scheme turned
/// from WebSocket to HTTP and the agent socket path dropped.
pub open spec fn spec_api_base(ws: Seq<char>) -> Seq<char> {
    spec_replace(
        spec_replace(spec_replace(ws, "wss://"@, "https://"@), "ws://"@, "http://"@),
        "/v1/desktop-agent/ws"@,
        Seq::empty(),
    )
}

/// The URL the pairing claim is posted to.
pub fn claim_url(ws: &str) -> (r: String)
    ensures
        r@ == spec_api_base(ws@) + "/v1/desktop-agent/pair/claim"@,
{
    let a = replace_text(ws, "wss://", "https://");
    let b = replace_text(a.as_str(), "ws://", "http://");
    let c = replace_text(b.as_str(), "/v1/desktop-agent/ws", "");
    proof {
        reveal_strlit("");
        assert(""@ =~= Seq::<char>::empty());
    }
    let mut out: Vec<char> = Vec::new();
    push_str_chars(&mut out, c.as_str());
    push_str_chars(&mut out, "/v1/desktop-agent/pair/claim");
    chars_to_string(&out)
}

/// The exact body of a pairing claim.
pub open spec fn spec_claim_body(
    code: Seq<char>,
    device_name: Seq<char>,
    platform: Seq<char>,
    scoped_folders: Seq<String>,
    platform_version: Seq<char>,
    app_version: Seq<char>,
) -> Seq<char> {
    "{\"code\":"@ + spec_quoted(code) + ",\"device_name\":"@ + spec_quoted(device_name)
        + ",\"platform\":"@ + spec_quoted(platform) + ",\"scoped_folders\":["@ + spec_str_items(
        scoped_folders,
        0,
    ) + "],\"platform_version\":"@ + spec_quoted(platform_version) + ",\"app_version\":"@
        + spec_quoted(app_version) + "}"@
}

/// Builds the body of a pairing claim.
pub fn claim_body(
    code: &str,
    device_name: &str,
    platform: &str,
    scoped_folders: &Vec<String>,
    platform_version: &str,
    app_version: &str,
) -> (r: String)
    ensures
        r@ == spec_claim_body(
            code@,
            device_name@,
            platform@,
            scoped_folders@,
            platform_version@,
            app_version@,
        ),
{
    let mut out: Vec<char> = Vec::new();
    push_str_chars(&mut out, "{\"code\":");
    let c = str_to_chars(code);
    push_quoted(&mut out, &c);
    push_str_chars(&mut out, ",\"device_name\":");
    let dn = str_to_chars(device_name);
    push_quoted(&mut out, &dn);
    push_str_chars(&mut out, ",\"platform\":");
    let p = str_to_chars(platform);
    push_quoted(&mut out, &p);
    push_str_chars(&mut out, ",\"scoped_folders\":[");
    crate::protocol::push_str_items(&mut out, scoped_folders, 0);
    push_str_chars(&mut out, "],\"platform_version\":");
    let pv = str_to_chars(platform_version);
    push_quoted(&mut out, &pv);
    push_str_chars(&mut out, ",\"app_version\":");
    let av = str_to_chars(app_version);
    push_quoted(&mut out, &av);
    push_str_chars(&mut out, "}");
    proof {
        assert(out@ =~= spec_claim_body(
            code@,
            device_name@,
            platform@,
            scoped_folders@,
            platform_version@,
            app_version@,
        ));
    }
    chars_to_string(&out)
}

/// Reads the server's answer to a pairing claim.
///
/// A failing status is answered with the body's `detail` text when the body
/// carries one, else with a fixed text naming the status. On a passing
/// status, an unparseable body is an invalid response carrying the parse
/// error's text, and a body without a string `device_token` misses it; else
/// the token is handed back.
pub fn parse_claim_response(ok: bool, status: &str, body: &Result<JVal, String>) -> (r: Result<
    String,
    String,
>)
    ensures
        match r {
            Ok(token) => {
                &&& ok
                &&& body is Ok
                &&& spec_str_param(body->Ok_0, "device_token"@) == Some(token)
            },
            Err(m) => {
                ||| (!ok && body is Ok && spec_str_param(body->Ok_0, "detail"@) is Some && m
                    == spec_str_param(body->Ok_0, "detail"@)->0)
                ||| (!ok && !(body is Ok && spec_str_param(body->Ok_0, "detail"@) is Some) && m@
                    == "Pairing failed (HTTP "@ + status@ + ")"@)
                ||| (ok && body is Err && m@ == "Invalid response: "@ + body->Err_0@)
                ||| (ok && body is Ok && spec_str_param(body->Ok_0, "device_token"@) is None && m@
                    == "Missing device_token in response"@)
            },
        },
{
    if !ok {
        match body {
            Ok(v) => match v.get("detail") {
                Some(d) => match d.as_str() {
                    Some(s) => {
                        return Err(s.clone());
                    },
                    None => {},
                },
                None => {},
            },
            Err(_) => {},
        }
        let mut out: Vec<char> = Vec::new();
        push_str_chars(&mut out, "Pairing failed (HTTP ");
        push_str_chars(&mut out, status);
        push_str_chars(&mut out, ")");
        return Err(chars_to_string(&out));
    }
    let v = match body {
        Ok(v) => v,
        Err(e) => {
            let mut out: Vec<char> = Vec::new();
            push_str_chars(&mut out, "Invalid response: ");
            push_str_chars(&mut out, e.as_str());
            return Err(chars_to_string(&out));
        },
    };
    match v.get("device_token") {
        Some(t) => match t.as_str() {
            Some(s) => Ok(s.clone()),
            None => Err(String::from_str("Missing device_token in response")),
        },
        None => Err(String::from_str("Missing device_token in response")),
    }
}

} // verus!
