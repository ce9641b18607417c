pub mod chars;
pub mod json;
pub mod security;
pub mod pairing;
pub mod protocol;
pub mod state;
pub mod supervisor;
pub mod tools;
pub mod unicode;

use vstd::prelude::*;

verus! {

/// The WebSocket endpoint the agent dials: an override wins, then the
/// development URL in development builds, then the production URL.
pub fn ws_url(override_url: Option<String>, dev_build: bool) -> (r: String)
    ensures
        override_url is Some ==> r@ == override_url->0@,
        override_url is None && dev_build ==> r@ == "ws://localhost:8000/v1/desktop-agent/ws"@,
        override_url is None && !dev_build ==> r@ == "wss://api.thebeakr.com/v1/desktop-agent/ws"@,
{
    match override_url {
        Some(url) => url,
        None => {
            if dev_build {
                String::from_str("ws://localhost:8000/v1/desktop-agent/ws")
            } else {
                String::from_str("wss://api.thebeakr.com/v1/desktop-agent/ws")
            }
        },
    }
}

} // verus!
