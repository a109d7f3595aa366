//! Display rendering: a polling consumer that re-renders only on change.
//!
//! On every tick the render loop reads the request counter and the status
//! flag from the shared state and hands them to `tick`, which either
//! suppresses the render (nothing changed since the last drawn frame) or
//! produces the four-line frame to draw and remembers what it drew.  The
//! loop itself, the fixed cadence, and the draw calls to the display bus
//! belong to the surrounding process; a failed draw is logged there and the
//! loop continues, so a display glitch never stops the device.

use vstd::prelude::*;
use crate::state::Status;
use crate::text::dec_of;
use crate::text::u32_to_string;
use vstd::string::StringExecFns;

verus! {

/// The four-line layout drawn to the display: connection label, network
/// address, status label, request count.
pub struct Frame {
    pub connection: String,
    pub address: String,
    pub status: String,
    pub requests: String,
}

/// The status label shown on the display.
pub open spec fn status_label(s: Status) -> Seq<char> {
    if s == Status::DoNotDisturb {
        "Do Not Disturb"@
    } else {
        "Free"@
    }
}

/// Whether a tick with these observed values must draw: true exactly when
/// either value differs from the last drawn frame.
pub open spec fn tick_renders(r: DisplayRenderer, count: u32, status: Status) -> bool {
    count != r.last_count || status != r.last_status
}

/// The renderer's cache after a tick: unchanged when the render was
/// suppressed, else the values just drawn.
pub open spec fn tick_state(r: DisplayRenderer, count: u32, status: Status) -> DisplayRenderer {
    if tick_renders(r, count, status) {
        DisplayRenderer { last_count: count, last_status: status }
    } else {
        r
    }
}

/// Polls the shared state and decides when the display must be redrawn.
/// Remembers the last values it produced a frame for.
#[derive(Clone, Copy, PartialEq, Eq, Structural, Debug)]
pub struct DisplayRenderer {
    pub last_count: u32,
    pub last_status: Status,
}

impl DisplayRenderer {
    /// A renderer whose first drawn frame showed zero requests and `Free` —
    /// the initial full render done right after bring-up.
    pub fn new() -> (r: DisplayRenderer)
        ensures
            r.last_count == 0u32,
            r.last_status == Status::Free,
    {
        DisplayRenderer { last_count: 0, last_status: Status::Free }
    }

    /// One render tick over the observed counter and status.  Produces the
    /// frame to draw exactly when something changed since the last drawn
    /// frame, and otherwise suppresses the render and leaves the cache
    /// untouched.
    pub fn tick(&mut self, addr: &str, count: u32, status: Status) -> (frame: Option<Frame>)
        ensures
            *final(self) == tick_state(*old(self), count, status),
            frame is Some <==> tick_renders(*old(self), count, status),
            frame matches Some(f) ==> {
                &&& f.connection@ == "WiFi Connected"@
                &&& f.address@ == "IP: "@ + addr@
                &&& f.status@ == "Status: "@ + status_label(status)
                &&& f.requests@ == "Requests: "@ + dec_of(count as nat)
            },
    {
        if count == self.last_count && status == self.last_status {
            return None;
        }
        self.last_count = count;
        self.last_status = status;
        let mut address = String::from_str("IP: ");
        address.append(addr);
        let mut status_line = String::from_str("Status: ");
        if status == Status::DoNotDisturb {
            status_line.append("Do Not Disturb");
        } else {
            status_line.append("Free");
        }
        let mut requests = String::from_str("Requests: ");
        let count_text = u32_to_string(count);
        requests.append(count_text.as_str());
        Some(
            Frame {
                connection: String::from_str("WiFi Connected"),
                address,
                status: status_line,
                requests,
            },
        )
    }
}

/// No redundant redraw: after any tick, a second tick that observes the
/// same counter and status renders nothing — the render call count stays
/// put until the state actually changes.
pub proof fn lemma_no_rerender_without_change(r: DisplayRenderer, count: u32, status: Status)
    ensures
        !tick_renders(tick_state(r, count, status), count, status),
{
}

} // verus!
