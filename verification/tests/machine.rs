use radio_bringup::bringup::{advance, start, Action, Event, Phase, Step};
use radio_bringup::config::configure;
use radio_bringup::error::BringUpError;
use radio_bringup::scan::AccessPointRecord;
use radio_bringup::status::{AccessPointStatus, ClientStatus, RadioStatus};

const TARGET: &str = "HomeNet";
const CREDENTIAL: &str = "hunter2";

const PHASES: [Phase; 7] = [
    Phase::AcquiringDriver,
    Phase::Scanning,
    Phase::Configuring,
    Phase::Validating,
    Phase::StartingServer,
    Phase::Serving,
    Phase::Failed,
];

fn record(ssid: &str, channel: u8) -> AccessPointRecord {
    AccessPointRecord { ssid: ssid.to_string(), channel }
}

fn ready() -> RadioStatus {
    RadioStatus {
        client: ClientStatus::ConnectedWithAddress,
        access_point: AccessPointStatus::StartedWithAddress,
    }
}

fn every_event() -> Vec<Event> {
    vec![
        Event::DriverAcquired,
        Event::DriverUnavailable,
        Event::ScanCompleted(vec![record(TARGET, 6)]),
        Event::ScanFailed,
        Event::ConfigurationApplied,
        Event::ConfigurationRejected,
        Event::StatusReported(ready()),
        Event::ServerStarted,
        Event::ServerFailed,
    ]
}

fn feed(events: Vec<Event>) -> Option<Step> {
    let mut step = start();
    for event in events {
        step = advance(step.phase, event, TARGET, CREDENTIAL)?;
    }
    Some(step)
}

fn failed(error: BringUpError) -> Option<Step> {
    Some(Step { phase: Phase::Failed, action: Action::Abort(error) })
}

#[test]
fn attempt_starts_by_acquiring_the_driver() {
    assert_eq!(start(), Step { phase: Phase::AcquiringDriver, action: Action::AcquireDriver });
}

#[test]
fn driver_acquired_leads_to_scan() {
    assert_eq!(
        feed(vec![Event::DriverAcquired]),
        Some(Step { phase: Phase::Scanning, action: Action::Scan })
    );
}

#[test]
fn driver_unavailable_is_a_platform_error() {
    assert_eq!(feed(vec![Event::DriverUnavailable]), failed(BringUpError::PlatformInit));
}

#[test]
fn scan_failure_is_a_scan_error() {
    assert_eq!(feed(vec![Event::DriverAcquired, Event::ScanFailed]), failed(BringUpError::Scan));
}

#[test]
fn scan_result_leads_to_configuration_on_found_channel() {
    let scan = vec![record("Cafe", 1), record(TARGET, 6)];
    assert_eq!(
        feed(vec![Event::DriverAcquired, Event::ScanCompleted(scan)]),
        Some(Step {
            phase: Phase::Configuring,
            action: Action::Apply(configure(TARGET, CREDENTIAL, Some(6))),
        })
    );
}

#[test]
fn scan_without_target_leads_to_default_channel() {
    let scan = vec![record("Cafe", 4)];
    let step = feed(vec![Event::DriverAcquired, Event::ScanCompleted(scan)]);
    match step {
        Some(Step { phase: Phase::Configuring, action: Action::Apply(configuration) }) => {
            assert_eq!(configuration.client.ssid, TARGET);
            assert_eq!(configuration.client.password, CREDENTIAL);
            assert_eq!(configuration.client.channel, None);
            assert_eq!(configuration.access_point.ssid, "aptest");
            assert_eq!(configuration.access_point.channel, 1);
        }
        other => panic!("unexpected step {:?}", other),
    }
}

#[test]
fn rejected_configuration_is_fatal_whatever_the_scan_found() {
    let scans = vec![
        Vec::new(),
        vec![record(TARGET, 6)],
        vec![record("Cafe", 1)],
        vec![record(TARGET, 6), record(TARGET, 11)],
    ];
    for scan in scans {
        assert_eq!(
            feed(vec![
                Event::DriverAcquired,
                Event::ScanCompleted(scan),
                Event::ConfigurationRejected
            ]),
            failed(BringUpError::Configuration)
        );
    }
}

#[test]
fn applied_configuration_leads_to_status_query() {
    assert_eq!(
        feed(vec![
            Event::DriverAcquired,
            Event::ScanCompleted(Vec::new()),
            Event::ConfigurationApplied
        ]),
        Some(Step { phase: Phase::Validating, action: Action::QueryStatus })
    );
}

#[test]
fn ready_status_leads_to_server_start() {
    assert_eq!(
        advance(Phase::Validating, Event::StatusReported(ready()), TARGET, CREDENTIAL),
        Some(Step { phase: Phase::StartingServer, action: Action::StartServer })
    );
}

#[test]
fn any_other_status_is_a_mismatch() {
    let clients = [
        ClientStatus::Idle,
        ClientStatus::Connecting,
        ClientStatus::ConnectedWithAddress,
        ClientStatus::Failed,
    ];
    let access_points =
        [AccessPointStatus::Idle, AccessPointStatus::StartedWithAddress, AccessPointStatus::Failed];
    for client in clients {
        for access_point in access_points {
            let status = RadioStatus { client, access_point };
            let next = advance(Phase::Validating, Event::StatusReported(status), TARGET, CREDENTIAL);
            if status == ready() {
                assert_eq!(
                    next,
                    Some(Step { phase: Phase::StartingServer, action: Action::StartServer })
                );
            } else {
                assert_eq!(next, failed(BringUpError::StatusMismatch(status)));
            }
        }
    }
}

#[test]
fn server_start_leads_to_serving() {
    assert_eq!(
        advance(Phase::StartingServer, Event::ServerStarted, TARGET, CREDENTIAL),
        Some(Step { phase: Phase::Serving, action: Action::Hold })
    );
}

#[test]
fn server_failure_is_a_server_error() {
    assert_eq!(
        advance(Phase::StartingServer, Event::ServerFailed, TARGET, CREDENTIAL),
        failed(BringUpError::ServerStart)
    );
}

#[test]
fn whole_attempt_succeeds() {
    assert_eq!(
        feed(vec![
            Event::DriverAcquired,
            Event::ScanCompleted(vec![record(TARGET, 6)]),
            Event::ConfigurationApplied,
            Event::StatusReported(ready()),
            Event::ServerStarted,
        ]),
        Some(Step { phase: Phase::Serving, action: Action::Hold })
    );
}

#[test]
fn ended_attempt_accepts_nothing() {
    for phase in [Phase::Failed, Phase::Serving] {
        for event in every_event() {
            assert_eq!(advance(phase, event, TARGET, CREDENTIAL), None);
        }
    }
}

#[test]
fn reports_out_of_turn_are_not_accepted() {
    assert_eq!(advance(Phase::AcquiringDriver, Event::ScanFailed, TARGET, CREDENTIAL), None);
    assert_eq!(advance(Phase::Scanning, Event::DriverAcquired, TARGET, CREDENTIAL), None);
    assert_eq!(advance(Phase::Scanning, Event::ConfigurationApplied, TARGET, CREDENTIAL), None);
    assert_eq!(
        advance(Phase::Configuring, Event::StatusReported(ready()), TARGET, CREDENTIAL),
        None
    );
    assert_eq!(
        advance(Phase::Configuring, Event::ScanCompleted(Vec::new()), TARGET, CREDENTIAL),
        None
    );
    assert_eq!(advance(Phase::Validating, Event::ServerStarted, TARGET, CREDENTIAL), None);
    assert_eq!(
        advance(Phase::StartingServer, Event::StatusReported(ready()), TARGET, CREDENTIAL),
        None
    );
}

#[test]
fn each_phase_accepts_only_its_own_reports() {
    let expected = [2, 2, 2, 1, 2, 0, 0];
    for (phase, count) in PHASES.iter().zip(expected) {
        let accepted = every_event()
            .into_iter()
            .filter(|event| advance(*phase, event_copy(event), TARGET, CREDENTIAL).is_some())
            .count();
        assert_eq!(accepted, count, "phase {:?}", phase);
    }
}

fn event_copy(event: &Event) -> Event {
    match event {
        Event::DriverAcquired => Event::DriverAcquired,
        Event::DriverUnavailable => Event::DriverUnavailable,
        Event::ScanCompleted(records) => Event::ScanCompleted(records.clone()),
        Event::ScanFailed => Event::ScanFailed,
        Event::ConfigurationApplied => Event::ConfigurationApplied,
        Event::ConfigurationRejected => Event::ConfigurationRejected,
        Event::StatusReported(status) => Event::StatusReported(*status),
        Event::ServerStarted => Event::ServerStarted,
        Event::ServerFailed => Event::ServerFailed,
    }
}

#[test]
fn no_attempt_takes_a_sixth_report() {
    let mut events = vec![
        Event::DriverAcquired,
        Event::ScanCompleted(vec![record(TARGET, 6)]),
        Event::ConfigurationApplied,
        Event::StatusReported(ready()),
        Event::ServerStarted,
    ];
    assert!(feed(events.iter().map(event_copy).collect()).is_some());
    for extra in every_event() {
        events.push(extra);
        assert_eq!(feed(events.iter().map(event_copy).collect()), None);
        events.pop();
    }
}

#[test]
fn failure_is_not_retried() {
    let step = feed(vec![Event::DriverAcquired, Event::ScanFailed]).unwrap();
    assert_eq!(step.phase, Phase::Failed);
    assert_eq!(
        advance(
            step.phase,
            Event::ScanCompleted(vec![record(TARGET, 6)]),
            TARGET,
            CREDENTIAL
        ),
        None
    );
    assert_eq!(advance(step.phase, Event::DriverAcquired, TARGET, CREDENTIAL), None);
}
