//! The acquisition loop's retry state machine.
//!
//! The loop owns a device session in one of two states. Disconnected: try to
//! open the device; on failure wait ten polling intervals and try again.
//! Connected: each tick refreshes the metrics, encodes and writes the enabled
//! reports, then sleeps one interval; any write failure discards the handle
//! and returns to Disconnected, retrying the open at once.
//!
//! The decisions live here as pure functions from state and event to next
//! state and action; the surrounding program performs the opens, writes and
//! sleeps and feeds back what happened.

use vstd::prelude::*;
use crate::metrics::{SystemMetrics, UserMetrics};
use crate::report::{encode_system_report, encode_user_report, system_report_spec, user_report_spec};

verus! {

/// Whether a device session is currently held.
#[derive(Clone, Copy, Debug, PartialEq, Eq, Structural)]
pub enum ConnState {
    Disconnected,
    Connected,
}

/// What the surrounding program observed while performing the current
/// state's work: the outcome of an open attempt, or of a tick's writes.
#[derive(Clone, Copy, Debug, PartialEq, Eq, Structural)]
pub enum LoopEvent {
    OpenSucceeded,
    OpenFailed,
    TickSucceeded,
    TickWriteFailed,
}

/// What the surrounding program is to do next.
#[derive(Clone, Copy, Debug, PartialEq, Eq, Structural)]
pub enum LoopAction {
    /// Try to open the device.
    AttemptOpen,
    /// Wait ten polling intervals, then try to open again.
    WaitBackoff,
    /// Refresh the metrics, encode and write the enabled reports.
    RunTick,
    /// Sleep one polling interval, then run the next tick.
    SleepInterval,
}

/// Vendor identifier of the one meter device the loop opens.
pub const DEVICE_VENDOR_ID: u16 = 0x2e8a;

/// Product identifier of the one meter device the loop opens.
pub const DEVICE_PRODUCT_ID: u16 = 0xc011;

/// Default polling interval between ticks, in milliseconds.
pub const DEFAULT_INTERVAL_MS: u16 = 1000;

/// The state the loop starts in: no device session is held.
pub open spec fn initial_state_spec() -> ConnState {
    ConnState::Disconnected
}

/// Whether `e` can be observed in state `s`: open outcomes belong to
/// Disconnected, tick outcomes to Connected.
pub open spec fn event_fits(s: ConnState, e: LoopEvent) -> bool {
    match s {
        ConnState::Disconnected => e is OpenSucceeded || e is OpenFailed,
        ConnState::Connected => e is TickSucceeded || e is TickWriteFailed,
    }
}

/// The state after observing `e` in state `s`. A successful open connects; a
/// failed write disconnects; everything else stays put. An event that does
/// not fit the state changes nothing.
pub open spec fn next_state_spec(s: ConnState, e: LoopEvent) -> ConnState {
    if !event_fits(s, e) {
        s
    } else {
        match (s, e) {
            (ConnState::Disconnected, LoopEvent::OpenSucceeded) => ConnState::Connected,
            (ConnState::Connected, LoopEvent::TickWriteFailed) => ConnState::Disconnected,
            _ => s,
        }
    }
}

/// The action owed after observing `e` in state `s`: a failed open is
/// followed by the backoff wait, a successful open by the first tick, a
/// successful tick by the interval sleep, and a failed write by an immediate
/// reopen attempt. An event that does not fit the state is answered with the
/// state's own action.
pub open spec fn next_action_spec(s: ConnState, e: LoopEvent) -> LoopAction {
    if !event_fits(s, e) {
        state_action_spec(s)
    } else {
        match (s, e) {
            (ConnState::Disconnected, LoopEvent::OpenFailed) => LoopAction::WaitBackoff,
            (ConnState::Disconnected, _) => LoopAction::RunTick,
            (ConnState::Connected, LoopEvent::TickSucceeded) => LoopAction::SleepInterval,
            (ConnState::Connected, _) => LoopAction::AttemptOpen,
        }
    }
}

/// The work a state performs: Disconnected opens, Connected ticks.
pub open spec fn state_action_spec(s: ConnState) -> LoopAction {
    match s {
        ConnState::Disconnected => LoopAction::AttemptOpen,
        ConnState::Connected => LoopAction::RunTick,
    }
}

/// The state the loop starts in.
pub fn initial_state() -> (s: ConnState)
    ensures
        s == initial_state_spec(),
{
    ConnState::Disconnected
}

/// Advance the machine by one observed event: the next state and the action
/// owed before the next event.
pub fn step(s: ConnState, e: LoopEvent) -> (r: (ConnState, LoopAction))
    ensures
        r.0 == next_state_spec(s, e),
        r.1 == next_action_spec(s, e),
{
    match (s, e) {
        (ConnState::Disconnected, LoopEvent::OpenSucceeded) => (
            ConnState::Connected,
            LoopAction::RunTick,
        ),
        (ConnState::Disconnected, LoopEvent::OpenFailed) => (
            ConnState::Disconnected,
            LoopAction::WaitBackoff,
        ),
        (ConnState::Connected, LoopEvent::TickSucceeded) => (
            ConnState::Connected,
            LoopAction::SleepInterval,
        ),
        (ConnState::Connected, LoopEvent::TickWriteFailed) => (
            ConnState::Disconnected,
            LoopAction::AttemptOpen,
        ),
        (ConnState::Disconnected, _) => (ConnState::Disconnected, LoopAction::AttemptOpen),
        (ConnState::Connected, _) => (ConnState::Connected, LoopAction::RunTick),
    }
}

/// The wait after a failed open attempt: ten polling intervals, in
/// milliseconds. Never overflows: the interval is at most 65535 ms.
pub fn backoff_millis(interval_ms: u16) -> (r: u32)
    ensures
        r == 10 * interval_ms,
{
    10 * (interval_ms as u32)
}

/// The reports one connected tick sends, in order: the system report only
/// when enabled, the user report always; each exactly once.
pub fn tick_reports(system_enabled: bool, sm: &SystemMetrics, um: &UserMetrics) -> (r: Vec<
    Vec<u8>,
>)
    ensures
        system_enabled ==> r@.len() == 2 && r@[0]@ == system_report_spec(sm@) && r@[1]@
            == user_report_spec(um@),
        !system_enabled ==> r@.len() == 1 && r@[0]@ == user_report_spec(um@),
{
    let mut r: Vec<Vec<u8>> = Vec::new();
    if system_enabled {
        r.push(encode_system_report(sm));
    }
    r.push(encode_user_report(um));
    r
}

/// A failed write always disconnects and retries the open at once.
pub proof fn lemma_write_failure_disconnects()
    ensures
        next_state_spec(ConnState::Connected, LoopEvent::TickWriteFailed)
            == ConnState::Disconnected,
        next_action_spec(ConnState::Connected, LoopEvent::TickWriteFailed)
            == LoopAction::AttemptOpen,
{
}

/// A failed open leaves the loop retrying: the state stays Disconnected and
/// the backoff wait is owed.
pub proof fn lemma_open_failure_retries()
    ensures
        next_state_spec(ConnState::Disconnected, LoopEvent::OpenFailed)
            == ConnState::Disconnected,
        next_action_spec(ConnState::Disconnected, LoopEvent::OpenFailed)
            == LoopAction::WaitBackoff,
{
}

} // verus!
