use sensor_dashboard::comm::{
    ClientConnectionStatus, ClientIpStatus, ClientStatus, EspTaskTimerService, EspWifi, IpSettings, WifiWait,
};
use sensor_dashboard::wifi::{connectivity, link_step, perform, probe, run_iteration, LinkAction, LinkEvent, LinkState};
use std::time::Duration;

const STATES: [LinkState; 4] =
    [LinkState::Disconnected, LinkState::Starting, LinkState::Connecting, LinkState::Connected];

fn status(connected: bool, started: bool) -> LinkEvent {
    LinkEvent::Status { connected, started }
}

#[test]
fn tick_probes_in_every_state() {
    for state in STATES {
        assert_eq!(link_step(state, LinkEvent::Tick), (state, LinkAction::Probe));
    }
}

#[test]
fn connected_link_is_taken_at_once() {
    for state in STATES {
        for started in [false, true] {
            assert_eq!(link_step(state, status(true, started)), (LinkState::Connected, LinkAction::Fetch));
        }
    }
}

#[test]
fn link_that_is_not_started_is_started() {
    assert_eq!(
        link_step(LinkState::Disconnected, status(false, false)),
        (LinkState::Starting, LinkAction::IssueStart)
    );
    assert_eq!(
        link_step(LinkState::Connected, status(false, false)),
        (LinkState::Starting, LinkAction::IssueStart)
    );
}

#[test]
fn started_link_is_connected() {
    assert_eq!(
        link_step(LinkState::Disconnected, status(false, true)),
        (LinkState::Connecting, LinkAction::IssueConnect)
    );
    assert_eq!(
        link_step(LinkState::Connecting, status(false, false)),
        (LinkState::Connecting, LinkAction::IssueConnect)
    );
}

#[test]
fn full_bring_up() {
    let mut step = link_step(LinkState::Disconnected, LinkEvent::Tick);
    let script = [
        (status(false, false), LinkState::Starting, LinkAction::IssueStart),
        (LinkEvent::Accepted, LinkState::Starting, LinkAction::WaitStarted),
        (LinkEvent::WaitMet, LinkState::Connecting, LinkAction::Probe),
        (status(false, true), LinkState::Connecting, LinkAction::IssueConnect),
        (LinkEvent::Accepted, LinkState::Connecting, LinkAction::WaitConnected),
        (LinkEvent::WaitMet, LinkState::Connected, LinkAction::Fetch),
        (LinkEvent::Tick, LinkState::Connected, LinkAction::Probe),
        (status(true, true), LinkState::Connected, LinkAction::Fetch),
    ];
    for (event, state, action) in script {
        step = link_step(step.0, event);
        assert_eq!(step, (state, action));
    }
}

#[test]
fn every_failure_ends_disconnected() {
    for state in STATES {
        for event in [LinkEvent::Rejected, LinkEvent::WaitTimedOut] {
            assert_eq!(link_step(state, event), (LinkState::Disconnected, LinkAction::Retry));
        }
    }
    assert_eq!(link_step(LinkState::Disconnected, LinkEvent::Accepted), (LinkState::Disconnected, LinkAction::Retry));
    assert_eq!(link_step(LinkState::Connected, LinkEvent::WaitMet), (LinkState::Disconnected, LinkAction::Retry));
    assert_eq!(link_step(LinkState::Starting, status(false, true)), (LinkState::Disconnected, LinkAction::Retry));
}

#[test]
fn fetch_only_when_connected() {
    let events = [
        LinkEvent::Tick,
        status(false, false),
        status(false, true),
        status(true, false),
        status(true, true),
        LinkEvent::Accepted,
        LinkEvent::Rejected,
        LinkEvent::WaitMet,
        LinkEvent::WaitTimedOut,
    ];
    for state in STATES {
        for event in events {
            let (next, action) = link_step(state, event);
            if action == LinkAction::Fetch {
                assert_eq!(next, LinkState::Connected);
            }
            if action == LinkAction::Retry {
                assert_eq!(next, LinkState::Disconnected);
            }
        }
    }
}

#[test]
fn connectivity_flag() {
    assert_eq!(connectivity(LinkAction::Fetch), Some(true));
    assert_eq!(connectivity(LinkAction::Retry), Some(false));
    for action in [
        LinkAction::Probe,
        LinkAction::IssueStart,
        LinkAction::WaitStarted,
        LinkAction::IssueConnect,
        LinkAction::WaitConnected,
    ] {
        assert_eq!(connectivity(action), None);
    }
}

#[test]
fn host_link_is_always_up() {
    let wifi = EspWifi {};
    assert!(wifi.start().is_ok());
    assert!(wifi.connect().is_ok());
    assert_eq!(wifi.is_started(), Ok(true));
    assert_eq!(wifi.is_connected(), Ok(true));
    assert_eq!(probe(&wifi), status(true, true));
}

#[test]
fn host_wait_reports_the_condition() {
    let wait = WifiWait {};
    assert!(wait.wait_with_timeout(Duration::from_secs(10), || true));
    assert!(!wait.wait_with_timeout(Duration::from_secs(10), || false));
}

#[test]
fn host_iteration_ends_connected() {
    let wifi = EspWifi {};
    let wait = WifiWait {};
    for state in STATES {
        assert_eq!(run_iteration(&wifi, &wait, Duration::from_secs(10), state), (LinkState::Connected, true));
    }
}

#[test]
fn host_performs_each_action() {
    let wifi = EspWifi {};
    let wait = WifiWait {};
    let timeout = Duration::from_secs(1);
    assert_eq!(perform(&wifi, &wait, timeout, LinkAction::Probe), status(true, true));
    assert_eq!(perform(&wifi, &wait, timeout, LinkAction::IssueStart), LinkEvent::Accepted);
    assert_eq!(perform(&wifi, &wait, timeout, LinkAction::IssueConnect), LinkEvent::Accepted);
    assert_eq!(perform(&wifi, &wait, timeout, LinkAction::WaitStarted), LinkEvent::WaitMet);
    assert_eq!(perform(&wifi, &wait, timeout, LinkAction::WaitConnected), LinkEvent::WaitMet);
    assert_eq!(perform(&wifi, &wait, timeout, LinkAction::Fetch), LinkEvent::Tick);
    assert_eq!(perform(&wifi, &wait, timeout, LinkAction::Retry), LinkEvent::Tick);
}

#[test]
fn host_client_status_is_never_transitional() {
    let connected = ClientStatus::Started(ClientConnectionStatus::Connected(ClientIpStatus::Done(IpSettings {})));
    let disconnected = ClientStatus::Started(ClientConnectionStatus::Disconnected);
    assert!(!connected.is_transitional());
    assert!(!disconnected.is_transitional());
}

#[test]
fn host_timer_service_is_made() {
    assert!(EspTaskTimerService::new().is_ok());
}
