//! Status of the host-guest clipboard link, as the UI reads it.
//!
//! The link is armed only when a socket was configured and the sink and
//! ingest loop are live; otherwise the status says why, and its counters are
//! all zero. A push is audited as written, refused before the wire, or failed.
use vstd::prelude::*;

use crate::clipboard_guest::{GuestLinkStatsView, zero_stats};

verus! {

/// Status of the host-guest clipboard link.
#[derive(Clone, Debug)]
pub struct GuestLinkStatus {
    /// A socket was configured and the link is live.
    pub armed: bool,
    /// The shared duplex connection is established.
    pub connected: bool,
    /// The configured socket path, when armed.
    pub socket: Option<String>,
    /// Why the link is not armed (empty when it is).
    pub reason: String,
    /// Audit counters (all zero when not armed).
    pub stats: GuestLinkStatsView,
}

impl GuestLinkStatus {
    /// A status that is not armed, for `reason`.
    pub fn disarmed(reason: String) -> (s: GuestLinkStatus)
        ensures
            !s.armed,
            !s.connected,
            s.socket is None,
            s.reason@ == reason@,
            s.stats == zero_stats(),
    {
        GuestLinkStatus {
            armed: false,
            connected: false,
            socket: None,
            reason,
            stats: GuestLinkStatsView::zero(),
        }
    }
}

/// What a live link reports about itself.
#[derive(Clone, Debug)]
pub struct ArmedLink {
    pub connected: bool,
    pub socket: String,
    pub stats: GuestLinkStatsView,
}

/// The reason given when a socket is configured but no link is live.
pub open spec fn not_armed_reason(socket: Seq<char>) -> Seq<char> {
    "AMOS_GUEST_CLIPBOARD_SOCKET names "@ + socket
        + " but the link is not armed (not started, or start failed)"@
}

/// The reason given when no socket is configured.
pub open spec fn not_set_reason() -> Seq<char> {
    "AMOS_GUEST_CLIPBOARD_SOCKET is not set"@
}

/// The link's status: the live link's own report, or why nothing is armed
/// (`configured` is the socket the environment names, if any).
pub fn status(armed: Option<ArmedLink>, configured: Option<String>) -> (s: GuestLinkStatus)
    ensures
        match armed {
            Some(l) => s.armed && s.connected == l.connected && (s.socket matches Some(p) && p@
                == l.socket@) && s.reason@.len() == 0 && s.stats == l.stats,
            None => !s.armed && !s.connected && s.socket is None && s.stats == zero_stats()
                && s.reason@ == match configured {
                Some(p) => not_armed_reason(p@),
                None => not_set_reason(),
            },
        },
{
    match armed {
        Some(l) => GuestLinkStatus {
            armed: true,
            connected: l.connected,
            socket: Some(l.socket),
            reason: String::new(),
            stats: l.stats,
        },
        None => match configured {
            Some(p) => GuestLinkStatus::disarmed(
                String::from_str("AMOS_GUEST_CLIPBOARD_SOCKET names ").concat(p.as_str()).concat(
                    " but the link is not armed (not started, or start failed)",
                ),
            ),
            None => GuestLinkStatus::disarmed(
                String::from_str("AMOS_GUEST_CLIPBOARD_SOCKET is not set"),
            ),
        },
    }
}

/// The status on a platform without Unix domain sockets.
pub fn unsupported_status() -> (s: GuestLinkStatus)
    ensures
        !s.armed,
        s.reason@ == "guest clipboard transport is unix-only"@,
        s.stats == zero_stats(),
{
    GuestLinkStatus::disarmed(String::from_str("guest clipboard transport is unix-only"))
}

} // verus!
