//! Network bring-up: a linear state machine driven to a terminal outcome.
//!
//! Joining the wireless network is a straight-line sequence of blocking
//! driver calls: apply the station configuration and start the radio,
//! associate with the access point, then wait for address assignment.  The
//! decisions live here as a state machine over plain values; the surrounding
//! process performs each pending action against the radio driver and reports
//! whether it succeeded.  Every run reaches `Ready` or `Failed` within three
//! reported steps, and a failure pins down the stage that caused it.

use vstd::prelude::*;
use crate::text::dec_of;
use crate::text::u32_to_string;
use vstd::string::StringExecFns;

verus! {

/// Why bring-up failed: the stage whose driver call reported an error.
#[derive(Clone, Copy, PartialEq, Eq, Structural, Debug)]
pub enum ConnectFailure {
    ConfigurationRejected,
    AssociationTimeout,
    AddressAssignmentFailed,
}

/// The stages of the bring-up sequence.  `Ready` and `Failed` are terminal.
#[derive(Clone, Copy, PartialEq, Eq, Structural, Debug)]
pub enum ConnectStage {
    Idle,
    Configuring,
    Associating,
    AddressPending,
    Ready,
    Failed(ConnectFailure),
}

/// The blocking driver call pending at a non-terminal, non-idle stage.
#[derive(Clone, Copy, PartialEq, Eq, Structural, Debug)]
pub enum ConnectAction {
    ApplyConfigurationAndStart,
    Associate,
    AwaitAddress,
}

/// An address on the joined network, as its four octets.  Produced once on
/// success and immutable thereafter.
#[derive(Clone, Copy, PartialEq, Eq, Structural, Debug)]
pub struct NetworkAddress {
    pub o0: u8,
    pub o1: u8,
    pub o2: u8,
    pub o3: u8,
}

/// The terminal outcome of bring-up, consumed once by bootstrap.
#[derive(Clone, PartialEq, Eq, Debug)]
pub enum ConnectionOutcome {
    Connected(NetworkAddress),
    Failed(ConnectFailure),
}

/// The dotted-decimal text of an address.
pub open spec fn ipv4_text(a: NetworkAddress) -> Seq<char> {
    dec_of(a.o0 as nat) + "."@ + dec_of(a.o1 as nat) + "."@ + dec_of(a.o2 as nat) + "."@ + dec_of(
        a.o3 as nat,
    )
}

impl NetworkAddress {
    /// Renders the address in dotted decimal for display.
    pub fn text(&self) -> (r: String)
        ensures
            r@ == ipv4_text(*self),
    {
        let mut s = u32_to_string(self.o0 as u32);
        s.append(".");
        let part1 = u32_to_string(self.o1 as u32);
        s.append(part1.as_str());
        s.append(".");
        let part2 = u32_to_string(self.o2 as u32);
        s.append(part2.as_str());
        s.append(".");
        let part3 = u32_to_string(self.o3 as u32);
        s.append(part3.as_str());
        proof {
            assert(s@ =~= ipv4_text(*self));
        }
        s
    }
}

/// Whether a stage is terminal: no further driver call is pending.
pub open spec fn is_terminal(s: ConnectStage) -> bool {
    s == ConnectStage::Ready || s matches ConnectStage::Failed(_)
}

/// The driver call pending at a stage, if any.
pub open spec fn spec_pending_action(s: ConnectStage) -> Option<ConnectAction> {
    match s {
        ConnectStage::Idle => None,
        ConnectStage::Configuring => Some(ConnectAction::ApplyConfigurationAndStart),
        ConnectStage::Associating => Some(ConnectAction::Associate),
        ConnectStage::AddressPending => Some(ConnectAction::AwaitAddress),
        ConnectStage::Ready => None,
        ConnectStage::Failed(_) => None,
    }
}

/// The next stage once the pending driver call has reported `ok`.  Terminal
/// stages absorb; `Idle` waits for an explicit `begin`.
pub open spec fn spec_next_stage(s: ConnectStage, ok: bool) -> ConnectStage {
    match s {
        ConnectStage::Idle => ConnectStage::Idle,
        ConnectStage::Configuring => if ok {
            ConnectStage::Associating
        } else {
            ConnectStage::Failed(ConnectFailure::ConfigurationRejected)
        },
        ConnectStage::Associating => if ok {
            ConnectStage::AddressPending
        } else {
            ConnectStage::Failed(ConnectFailure::AssociationTimeout)
        },
        ConnectStage::AddressPending => if ok {
            ConnectStage::Ready
        } else {
            ConnectStage::Failed(ConnectFailure::AddressAssignmentFailed)
        },
        ConnectStage::Ready => ConnectStage::Ready,
        ConnectStage::Failed(f) => ConnectStage::Failed(f),
    }
}

/// Drives the bring-up sequence.  Single-shot: once terminal, the stage
/// never changes again.
pub struct NetworkConnector {
    pub stage: ConnectStage,
}

impl NetworkConnector {
    /// A connector that has not begun bring-up.
    pub fn new() -> (c: NetworkConnector)
        ensures
            c.stage == ConnectStage::Idle,
    {
        NetworkConnector { stage: ConnectStage::Idle }
    }

    /// Starts the sequence: the configuration call becomes pending.
    pub fn begin(&mut self)
        requires
            old(self).stage == ConnectStage::Idle,
        ensures
            final(self).stage == ConnectStage::Configuring,
    {
        self.stage = ConnectStage::Configuring;
    }

    /// The driver call the caller must perform next, if any.
    pub fn pending_action(&self) -> (a: Option<ConnectAction>)
        ensures
            a == spec_pending_action(self.stage),
    {
        match self.stage {
            ConnectStage::Configuring => Some(ConnectAction::ApplyConfigurationAndStart),
            ConnectStage::Associating => Some(ConnectAction::Associate),
            ConnectStage::AddressPending => Some(ConnectAction::AwaitAddress),
            _ => None,
        }
    }

    /// Records the outcome of the pending driver call and advances.
    pub fn on_step_result(&mut self, ok: bool)
        ensures
            final(self).stage == spec_next_stage(old(self).stage, ok),
    {
        self.stage = match self.stage {
            ConnectStage::Idle => ConnectStage::Idle,
            ConnectStage::Configuring => if ok {
                ConnectStage::Associating
            } else {
                ConnectStage::Failed(ConnectFailure::ConfigurationRejected)
            },
            ConnectStage::Associating => if ok {
                ConnectStage::AddressPending
            } else {
                ConnectStage::Failed(ConnectFailure::AssociationTimeout)
            },
            ConnectStage::AddressPending => if ok {
                ConnectStage::Ready
            } else {
                ConnectStage::Failed(ConnectFailure::AddressAssignmentFailed)
            },
            ConnectStage::Ready => ConnectStage::Ready,
            ConnectStage::Failed(f) => ConnectStage::Failed(f),
        };
    }

    /// The terminal outcome, once one has been reached.  On success the
    /// caller supplies the address that assignment produced.
    pub fn outcome(&self, addr: NetworkAddress) -> (r: Option<ConnectionOutcome>)
        ensures
            self.stage == ConnectStage::Ready ==> r == Some(ConnectionOutcome::Connected(addr)),
            (self.stage matches ConnectStage::Failed(f) ==> r == Some(
                ConnectionOutcome::Failed(f),
            )),
            !is_terminal(self.stage) ==> r is None,
    {
        match self.stage {
            ConnectStage::Ready => Some(ConnectionOutcome::Connected(addr)),
            ConnectStage::Failed(f) => Some(ConnectionOutcome::Failed(f)),
            _ => None,
        }
    }
}

/// Bounded blocking: from the start of the sequence, any three reported
/// step outcomes land in a terminal stage — the link is up or the run has
/// failed; bring-up never spins.
pub proof fn lemma_bringup_terminates(e1: bool, e2: bool, e3: bool)
    ensures
        is_terminal(
            spec_next_stage(spec_next_stage(spec_next_stage(ConnectStage::Configuring, e1), e2), e3),
        ),
{
}

/// A fully successful run ends `Ready`; the first failed call ends the run
/// in `Failed` with the failure of exactly the stage that reported it.
pub proof fn lemma_bringup_outcomes()
    ensures
        spec_next_stage(
            spec_next_stage(spec_next_stage(ConnectStage::Configuring, true), true),
            true,
        ) == ConnectStage::Ready,
        spec_next_stage(ConnectStage::Configuring, false) == ConnectStage::Failed(
            ConnectFailure::ConfigurationRejected,
        ),
        spec_next_stage(spec_next_stage(ConnectStage::Configuring, true), false)
            == ConnectStage::Failed(ConnectFailure::AssociationTimeout),
        spec_next_stage(
            spec_next_stage(spec_next_stage(ConnectStage::Configuring, true), true),
            false,
        ) == ConnectStage::Failed(ConnectFailure::AddressAssignmentFailed),
{
}

/// Terminal stages absorb every further event: the outcome of bring-up,
/// once reached, is stable.
pub proof fn lemma_terminal_is_stable(s: ConnectStage, ok: bool)
    requires
        is_terminal(s),
    ensures
        spec_next_stage(s, ok) == s,
{
}

} // verus!
