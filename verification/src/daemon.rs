//! How the UI reaches the AI daemon: which transport, and whether a shared
//! secret travels with every request.
//!
//! `AMOS_TCP_ADDR` (set and not blank) selects loopback TCP at that address;
//! otherwise a build made for TCP uses the default loopback address; otherwise
//! the daemon's Unix socket. A blank TCP token is no token. A per-request
//! token already present is never overwritten by the channel's.
use vstd::prelude::*;

use crate::desktop_entry::trimmed;
use crate::text::{chars_of, string_of, trim};

verus! {

/// Default loopback TCP address of the on-device daemon.
pub const DEFAULT_TCP_ADDR: &'static str = "127.0.0.1:8787";

/// The request header carrying the daemon's TCP shared secret.
pub const TOKEN_HEADER: &'static str = "x-amos-token";

/// The transport a channel is opened over.
#[derive(Clone, Debug, PartialEq, Eq)]
pub enum Transport {
    /// Loopback TCP at this address.
    Tcp(String),
    /// The daemon's Unix domain socket.
    Unix,
}

/// The transport for the configured `AMOS_TCP_ADDR` value (`env_addr`) and
/// whether this build defaults to TCP.
pub fn pick_transport(env_addr: Option<&str>, tcp_default: bool) -> (t: Transport)
    ensures
        match env_addr {
            Some(a) if trim(a@).len() > 0 => t matches Transport::Tcp(x) && x@ == trim(a@),
            _ => if tcp_default {
                t matches Transport::Tcp(x) && x@ == DEFAULT_TCP_ADDR@
            } else {
                t == Transport::Unix
            },
        },
{
    match env_addr {
        Some(a) => {
            let v = chars_of(a);
            let t = trimmed(&v, 0, v.len());
            proof {
                assert(v@.subrange(0, v.len() as int) =~= v@);
                assert(t@.subrange(0, t.len() as int) =~= t@);
            }
            if t.len() > 0 {
                return Transport::Tcp(string_of(&t, 0, t.len()));
            }
        },
        None => {},
    }
    if tcp_default {
        Transport::Tcp(String::from_str(DEFAULT_TCP_ADDR))
    } else {
        Transport::Unix
    }
}

/// The token a channel attaches: none when unset or blank, else the value as
/// it was configured (never a trimmed or altered one).
pub fn channel_token(raw: Option<&str>) -> (r: Option<String>)
    ensures
        match raw {
            Some(t) if trim(t@).len() > 0 => r matches Some(x) && x@ == t@,
            _ => r is None,
        },
{
    match raw {
        Some(t) => {
            let v = chars_of(t);
            let tt = trimmed(&v, 0, v.len());
            proof {
                assert(v@.subrange(0, v.len() as int) =~= v@);
            }
            if tt.len() > 0 {
                Some(String::from_str(t))
            } else {
                None
            }
        },
        None => None,
    }
}

} // verus!
