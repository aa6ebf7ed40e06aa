//! The link supervisor: one decision at a time, it brings the wireless link
//! up, lets the fetch stage run while the link is up, and falls back to a
//! retry whenever a step fails.
//!
//! Whoever owns the driver performs each [`LinkAction`] and reports what came
//! of it as the next [`LinkEvent`].

use vstd::prelude::*;
use crate::comm::{EspWifi, WifiWait};

verus! {

/// Where the supervisor stands.
#[derive(Clone, Copy, Debug, PartialEq, Eq, Structural)]
pub enum LinkState {
    Disconnected,
    Starting,
    Connecting,
    Connected,
}

/// What the driver reported.
#[derive(Clone, Copy, Debug, PartialEq, Eq, Structural)]
pub enum LinkEvent {
    /// A new iteration begins.
    Tick,
    /// The link was asked how it stands.
    Status { connected: bool, started: bool },
    /// The driver accepted the request just issued.
    Accepted,
    /// The driver rejected the request just issued.
    Rejected,
    /// The awaited condition came true in time.
    WaitMet,
    /// The awaited condition did not come true in time.
    WaitTimedOut,
}

/// What to do next.
#[derive(Clone, Copy, Debug, PartialEq, Eq, Structural)]
pub enum LinkAction {
    /// Ask the link whether it is connected and started.
    Probe,
    /// Ask the driver to start.
    IssueStart,
    /// Wait, with a timeout, until the driver has started.
    WaitStarted,
    /// Ask the driver to connect.
    IssueConnect,
    /// Wait, with a timeout, until the link is connected.
    WaitConnected,
    /// The link is up: run the fetch stage once, then pause for the polling
    /// period.
    Fetch,
    /// The link is down: skip the fetch stage and pause for the short retry
    /// interval.
    Retry,
}

/// The decision for `state` on `event`: the next state and what to do.
///
/// A new iteration always probes. A link that reports connected is taken as
/// connected at once. Otherwise the driver is started if it is not, then
/// connected; a rejection, a timeout or an event that the state does not
/// expect ends the iteration disconnected.
pub open spec fn spec_link_step(state: LinkState, event: LinkEvent) -> (LinkState, LinkAction) {
    match event {
        LinkEvent::Tick => (state, LinkAction::Probe),
        LinkEvent::Status { connected, started } => if connected {
            (LinkState::Connected, LinkAction::Fetch)
        } else if state is Starting {
            (LinkState::Disconnected, LinkAction::Retry)
        } else if started || state is Connecting {
            (LinkState::Connecting, LinkAction::IssueConnect)
        } else {
            (LinkState::Starting, LinkAction::IssueStart)
        },
        LinkEvent::Accepted => match state {
            LinkState::Starting => (LinkState::Starting, LinkAction::WaitStarted),
            LinkState::Connecting => (LinkState::Connecting, LinkAction::WaitConnected),
            _ => (LinkState::Disconnected, LinkAction::Retry),
        },
        LinkEvent::WaitMet => match state {
            LinkState::Starting => (LinkState::Connecting, LinkAction::Probe),
            LinkState::Connecting => (LinkState::Connected, LinkAction::Fetch),
            _ => (LinkState::Disconnected, LinkAction::Retry),
        },
        LinkEvent::Rejected => (LinkState::Disconnected, LinkAction::Retry),
        LinkEvent::WaitTimedOut => (LinkState::Disconnected, LinkAction::Retry),
    }
}

/// What the connectivity flag becomes once `action` is decided: an iteration
/// ends either connected, with a fetch, or disconnected, with a retry.
pub open spec fn spec_connectivity(action: LinkAction) -> Option<bool> {
    match action {
        LinkAction::Fetch => Some(true),
        LinkAction::Retry => Some(false),
        _ => None,
    }
}

/// How long the retry after a failed iteration waits, in seconds.
pub const RETRY_INTERVAL_SECS: u64 = 1;

/// How long the supervisor waits between two fetches, in seconds.
pub const POLLING_PERIOD_SECS: u64 = 30;

/// How long a start or a connect is awaited, in seconds.
pub const WAIT_TIMEOUT_SECS: u64 = 10;

/// The pause that follows `action`, in seconds: the polling period after a
/// fetch, the short retry interval after a failed iteration, none within an
/// iteration.
pub open spec fn spec_pause_after(action: LinkAction) -> Option<u64> {
    match action {
        LinkAction::Fetch => Some(POLLING_PERIOD_SECS),
        LinkAction::Retry => Some(RETRY_INTERVAL_SECS),
        _ => None,
    }
}

/// The pause that follows `action`, in seconds.
pub fn pause_after(action: LinkAction) -> (r: Option<u64>)
    ensures
        r == spec_pause_after(action),
        r is Some <==> spec_connectivity(action) is Some,
{
    match action {
        LinkAction::Fetch => Some(POLLING_PERIOD_SECS),
        LinkAction::Retry => Some(RETRY_INTERVAL_SECS),
        _ => None,
    }
}

/// Decides the next state and action.
pub fn link_step(state: LinkState, event: LinkEvent) -> (r: (LinkState, LinkAction))
    ensures
        r == spec_link_step(state, event),
        r.1 is Fetch ==> r.0 is Connected,
        r.1 is Retry ==> r.0 is Disconnected,
        event is Rejected || event is WaitTimedOut ==> r == (LinkState::Disconnected, LinkAction::Retry),
{
    match event {
        LinkEvent::Tick => (state, LinkAction::Probe),
        LinkEvent::Status { connected, started } => {
            if connected {
                (LinkState::Connected, LinkAction::Fetch)
            } else {
                match state {
                    LinkState::Starting => (LinkState::Disconnected, LinkAction::Retry),
                    LinkState::Connecting => (LinkState::Connecting, LinkAction::IssueConnect),
                    _ => if started {
                        (LinkState::Connecting, LinkAction::IssueConnect)
                    } else {
                        (LinkState::Starting, LinkAction::IssueStart)
                    },
                }
            }
        },
        LinkEvent::Accepted => match state {
            LinkState::Starting => (LinkState::Starting, LinkAction::WaitStarted),
            LinkState::Connecting => (LinkState::Connecting, LinkAction::WaitConnected),
            _ => (LinkState::Disconnected, LinkAction::Retry),
        },
        LinkEvent::WaitMet => match state {
            LinkState::Starting => (LinkState::Connecting, LinkAction::Probe),
            LinkState::Connecting => (LinkState::Connected, LinkAction::Fetch),
            _ => (LinkState::Disconnected, LinkAction::Retry),
        },
        LinkEvent::Rejected => (LinkState::Disconnected, LinkAction::Retry),
        LinkEvent::WaitTimedOut => (LinkState::Disconnected, LinkAction::Retry),
    }
}

/// The connectivity flag that `action` sets, if it ends the iteration.
pub fn connectivity(action: LinkAction) -> (r: Option<bool>)
    ensures
        r == spec_connectivity(action),
{
    match action {
        LinkAction::Fetch => Some(true),
        LinkAction::Retry => Some(false),
        _ => None,
    }
}

/// A link that reports connected is taken as connected whatever the state,
/// without a start or a connect.
pub proof fn lemma_connected_link_skips_bring_up(state: LinkState, started: bool)
    ensures
        spec_link_step(
            spec_link_step(state, LinkEvent::Tick).0,
            LinkEvent::Status { connected: true, started },
        ) == (LinkState::Connected, LinkAction::Fetch),
{
}

/// Bringing up a link that is neither started nor connected, with every step
/// succeeding: start, wait, probe, connect, wait, and the fetch stage runs.
pub proof fn lemma_bring_up(state: LinkState)
    requires
        state is Disconnected || state is Connected,
    ensures
        ({
            let probed = spec_link_step(state, LinkEvent::Tick);
            let start = spec_link_step(probed.0, LinkEvent::Status { connected: false, started: false });
            let wait_started = spec_link_step(start.0, LinkEvent::Accepted);
            let probe_again = spec_link_step(wait_started.0, LinkEvent::WaitMet);
            let connect = spec_link_step(probe_again.0, LinkEvent::Status { connected: false, started: true });
            let wait_connected = spec_link_step(connect.0, LinkEvent::Accepted);
            let up = spec_link_step(wait_connected.0, LinkEvent::WaitMet);
            &&& probed.1 is Probe
            &&& start.1 is IssueStart
            &&& wait_started.1 is WaitStarted
            &&& probe_again.1 is Probe
            &&& connect.1 is IssueConnect
            &&& wait_connected.1 is WaitConnected
            &&& up == (LinkState::Connected, LinkAction::Fetch)
        }),
{
}

/// The fetch stage runs only on a link that reported connected or whose
/// connection was awaited and met; and whenever the iteration ends without
/// it, the supervisor is back at the start.
pub proof fn lemma_fetch_needs_connection(state: LinkState, event: LinkEvent)
    ensures
        spec_link_step(state, event).1 is Fetch <==> (event matches LinkEvent::Status { connected: true, .. })
            || (state is Connecting && event is WaitMet),
        spec_link_step(state, event).1 is Retry ==> spec_link_step(state, event).0 is Disconnected,
        spec_connectivity(spec_link_step(state, event).1) == Some(true) <==> spec_link_step(state, event).1
            is Fetch,
{
}

/// Asks the link how it stands. A query that fails counts as "no".
pub fn probe(wifi: &EspWifi) -> (r: LinkEvent)
    ensures
        r == (LinkEvent::Status { connected: true, started: true }),
{
    let connected = match wifi.is_connected() {
        Ok(up) => up,
        Err(_) => false,
    };
    let started = match wifi.is_started() {
        Ok(up) => up,
        Err(_) => false,
    };
    LinkEvent::Status { connected, started }
}

/// Performs `action` on the host's link and reports what came of it. The
/// two actions that end an iteration have nothing to perform and report a
/// new tick.
pub fn perform(wifi: &EspWifi, wifi_wait: &WifiWait, timeout: core::time::Duration, action: LinkAction) -> (r:
    LinkEvent)
    ensures
        r == match action {
            LinkAction::Probe => LinkEvent::Status { connected: true, started: true },
            LinkAction::IssueStart => LinkEvent::Accepted,
            LinkAction::IssueConnect => LinkEvent::Accepted,
            LinkAction::WaitStarted => LinkEvent::WaitMet,
            LinkAction::WaitConnected => LinkEvent::WaitMet,
            LinkAction::Fetch => LinkEvent::Tick,
            LinkAction::Retry => LinkEvent::Tick,
        },
{
    match action {
        LinkAction::Probe => probe(wifi),
        LinkAction::IssueStart => match wifi.start() {
            Ok(_) => LinkEvent::Accepted,
            Err(_) => LinkEvent::Rejected,
        },
        LinkAction::IssueConnect => match wifi.connect() {
            Ok(_) => LinkEvent::Accepted,
            Err(_) => LinkEvent::Rejected,
        },
        LinkAction::WaitStarted => {
            let started = || -> (up: bool)
                ensures
                    up,
                {
                    match wifi.is_started() {
                        Ok(up) => up,
                        Err(_) => false,
                    }
                };
            if wifi_wait.wait_with_timeout(timeout, started) {
                LinkEvent::WaitMet
            } else {
                LinkEvent::WaitTimedOut
            }
        },
        LinkAction::WaitConnected => {
            let connected = || -> (up: bool)
                ensures
                    up,
                {
                    match wifi.is_connected() {
                        Ok(up) => up,
                        Err(_) => false,
                    }
                };
            if wifi_wait.wait_with_timeout(timeout, connected) {
                LinkEvent::WaitMet
            } else {
                LinkEvent::WaitTimedOut
            }
        },
        LinkAction::Fetch => LinkEvent::Tick,
        LinkAction::Retry => LinkEvent::Tick,
    }
}

/// Runs one iteration of the supervisor on the host's link, from a tick to
/// the decision that ends it, and returns the new state and the connectivity
/// flag. On the host the link is always up, so the iteration ends connected.
pub fn run_iteration(wifi: &EspWifi, wifi_wait: &WifiWait, timeout: core::time::Duration, state: LinkState) -> (r: (
    LinkState,
    bool,
))
    ensures
        r == (LinkState::Connected, true),
{
    let first = link_step(state, LinkEvent::Tick);
    let status = perform(wifi, wifi_wait, timeout, first.1);
    let second = link_step(first.0, status);
    match connectivity(second.1) {
        Some(connected) => (second.0, connected),
        None => (LinkState::Disconnected, false),
    }
}

} // verus!
