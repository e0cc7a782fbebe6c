//! The start-up sequence as a state machine.
//!
//! The machine decides; its caller does the work. Each [`Step`] names the one
//! action the caller has to perform next, and the caller reports how that
//! action went as an [`Event`]. Nothing is tried twice: the first failure ends
//! the attempt.

use crate::config::{configure, radio_settings, RadioConfiguration, RadioSettings};
use crate::error::BringUpError;
use crate::scan::{
    entries, has_no_match, is_first_match, select_channel, selected_channel,
    selection_takes_first_match, selection_without_match, AccessPointRecord, ScanEntry,
};
use crate::status::{AccessPointStatus, ClientStatus, RadioStatus};
use vstd::prelude::*;

verus! {

/// Where the start-up sequence stands.
#[derive(Clone, Copy, Debug, PartialEq, Eq, Structural)]
pub enum Phase {
    /// The platform services and the radio driver are being constructed.
    AcquiringDriver,
    /// The radio is scanning for visible networks.
    Scanning,
    /// The combined configuration is being applied.
    Configuring,
    /// The status of both roles is being read.
    Validating,
    /// The radio is live and the responder is being started.
    StartingServer,
    /// Everything is up; the process only has to stay alive.
    Serving,
    /// The attempt has ended with an error.
    Failed,
}

/// What the caller reports back after performing an action.
#[derive(Debug, PartialEq, Eq)]
pub enum Event {
    DriverAcquired,
    DriverUnavailable,
    ScanCompleted(Vec<AccessPointRecord>),
    ScanFailed,
    ConfigurationApplied,
    ConfigurationRejected,
    StatusReported(RadioStatus),
    ServerStarted,
    ServerFailed,
}

/// What the caller has to do next.
#[derive(Debug, PartialEq, Eq)]
pub enum Action {
    /// Construct the platform services and the radio driver.
    AcquireDriver,
    /// Scan for visible networks.
    Scan,
    /// Apply this configuration to the driver in one call.
    Apply(RadioConfiguration),
    /// Read the status of both roles, once.
    QueryStatus,
    /// Register the route table and start listening.
    StartServer,
    /// Keep the driver and the server alive.
    Hold,
    /// Give up and surface this error.
    Abort(BringUpError),
}

/// A phase together with the action that is pending in it.
#[derive(Debug, PartialEq, Eq)]
pub struct Step {
    pub phase: Phase,
    pub action: Action,
}

/// Mathematical model of an [`Event`].
pub enum EventView {
    DriverAcquired,
    DriverUnavailable,
    ScanCompleted(Seq<ScanEntry>),
    ScanFailed,
    ConfigurationApplied,
    ConfigurationRejected,
    StatusReported(RadioStatus),
    ServerStarted,
    ServerFailed,
}

/// Mathematical model of an [`Action`].
pub enum ActionView {
    AcquireDriver,
    Scan,
    Apply(RadioSettings),
    QueryStatus,
    StartServer,
    Hold,
    Abort(BringUpError),
}

/// Mathematical model of a [`Step`].
pub struct StepView {
    pub phase: Phase,
    pub action: ActionView,
}

impl View for Event {
    type V = EventView;

    open spec fn view(&self) -> EventView {
        match *self {
            Event::DriverAcquired => EventView::DriverAcquired,
            Event::DriverUnavailable => EventView::DriverUnavailable,
            Event::ScanCompleted(records) => EventView::ScanCompleted(entries(records@)),
            Event::ScanFailed => EventView::ScanFailed,
            Event::ConfigurationApplied => EventView::ConfigurationApplied,
            Event::ConfigurationRejected => EventView::ConfigurationRejected,
            Event::StatusReported(status) => EventView::StatusReported(status),
            Event::ServerStarted => EventView::ServerStarted,
            Event::ServerFailed => EventView::ServerFailed,
        }
    }
}

impl View for Action {
    type V = ActionView;

    open spec fn view(&self) -> ActionView {
        match *self {
            Action::AcquireDriver => ActionView::AcquireDriver,
            Action::Scan => ActionView::Scan,
            Action::Apply(configuration) => ActionView::Apply(configuration@),
            Action::QueryStatus => ActionView::QueryStatus,
            Action::StartServer => ActionView::StartServer,
            Action::Hold => ActionView::Hold,
            Action::Abort(error) => ActionView::Abort(error),
        }
    }
}

impl View for Step {
    type V = StepView;

    open spec fn view(&self) -> StepView {
        StepView { phase: self.phase, action: self.action@ }
    }
}

/// The step every attempt begins with.
pub open spec fn initial_step() -> StepView {
    StepView { phase: Phase::AcquiringDriver, action: ActionView::AcquireDriver }
}

/// The step that ends an attempt with `error`.
pub open spec fn failure(error: BringUpError) -> StepView {
    StepView { phase: Phase::Failed, action: ActionView::Abort(error) }
}

/// The verdict on the status read right after configuration.
pub open spec fn verdict(status: RadioStatus) -> Result<(), BringUpError> {
    if status.is_ready() {
        Ok(())
    } else {
        Err(BringUpError::StatusMismatch(status))
    }
}

/// The step that follows `phase` when `event` is reported, or nothing when
/// `event` does not answer the action pending in `phase`.
pub open spec fn transition(
    phase: Phase,
    event: EventView,
    target: Seq<char>,
    credential: Seq<char>,
) -> Option<StepView> {
    match (phase, event) {
        (Phase::AcquiringDriver, EventView::DriverAcquired) => Some(
            StepView { phase: Phase::Scanning, action: ActionView::Scan },
        ),
        (Phase::AcquiringDriver, EventView::DriverUnavailable) => Some(
            failure(BringUpError::PlatformInit),
        ),
        (Phase::Scanning, EventView::ScanCompleted(scan)) => Some(
            StepView {
                phase: Phase::Configuring,
                action: ActionView::Apply(
                    radio_settings(target, credential, selected_channel(scan, target)),
                ),
            },
        ),
        (Phase::Scanning, EventView::ScanFailed) => Some(failure(BringUpError::Scan)),
        (Phase::Configuring, EventView::ConfigurationApplied) => Some(
            StepView { phase: Phase::Validating, action: ActionView::QueryStatus },
        ),
        (Phase::Configuring, EventView::ConfigurationRejected) => Some(
            failure(BringUpError::Configuration),
        ),
        (Phase::Validating, EventView::StatusReported(status)) => match verdict(status) {
            Ok(_) => Some(
                StepView { phase: Phase::StartingServer, action: ActionView::StartServer },
            ),
            Err(error) => Some(failure(error)),
        },
        (Phase::StartingServer, EventView::ServerStarted) => Some(
            StepView { phase: Phase::Serving, action: ActionView::Hold },
        ),
        (Phase::StartingServer, EventView::ServerFailed) => Some(
            failure(BringUpError::ServerStart),
        ),
        _ => None,
    }
}

/// Checks the status read right after configuration. Only a client that is
/// connected with an address together with an access point that has started
/// with an address passes; every other pair is reported as a mismatch.
pub fn validate(status: RadioStatus) -> (outcome: Result<(), BringUpError>)
    ensures
        outcome == verdict(status),
        outcome is Ok <==> status.client == ClientStatus::ConnectedWithAddress
            && status.access_point == AccessPointStatus::StartedWithAddress,
{
    if status.is_ready() {
        Ok(())
    } else {
        Err(BringUpError::StatusMismatch(status))
    }
}

/// Derives the configuration to apply from a scan result: the client is
/// pointed at `target`, on the channel of the first record that carries that
/// name if there is one, and the access point shares that channel or falls
/// back to the default.
pub fn plan(
    records: &Vec<AccessPointRecord>,
    target: &str,
    credential: &str,
) -> (configuration: RadioConfiguration)
    ensures
        configuration@ == radio_settings(
            target@,
            credential@,
            selected_channel(entries(records@), target@),
        ),
{
    configure(target, credential, select_channel(records, target))
}

/// Begins an attempt: the first thing to do is to acquire the driver.
pub fn start() -> (step: Step)
    ensures
        step@ == initial_step(),
{
    Step { phase: Phase::AcquiringDriver, action: Action::AcquireDriver }
}

fn fail(error: BringUpError) -> (step: Step)
    ensures
        step@ == failure(error),
{
    Step { phase: Phase::Failed, action: Action::Abort(error) }
}

/// Takes the report on the pending action and decides what comes next.
///
/// Returns nothing when `event` is not a report on the action pending in
/// `phase`; in particular no event is accepted once the attempt has failed or
/// the device is serving.
pub fn advance(phase: Phase, event: Event, target: &str, credential: &str) -> (next: Option<Step>)
    ensures
        match next {
            Some(step) => transition(phase, event@, target@, credential@) == Some(step@),
            None => transition(phase, event@, target@, credential@) is None,
        },
{
    match (phase, event) {
        (Phase::AcquiringDriver, Event::DriverAcquired) => Some(
            Step { phase: Phase::Scanning, action: Action::Scan },
        ),
        (Phase::AcquiringDriver, Event::DriverUnavailable) => Some(
            fail(BringUpError::PlatformInit),
        ),
        (Phase::Scanning, Event::ScanCompleted(records)) => Some(
            Step {
                phase: Phase::Configuring,
                action: Action::Apply(plan(&records, target, credential)),
            },
        ),
        (Phase::Scanning, Event::ScanFailed) => Some(fail(BringUpError::Scan)),
        (Phase::Configuring, Event::ConfigurationApplied) => Some(
            Step { phase: Phase::Validating, action: Action::QueryStatus },
        ),
        (Phase::Configuring, Event::ConfigurationRejected) => Some(
            fail(BringUpError::Configuration),
        ),
        (Phase::Validating, Event::StatusReported(status)) => match validate(status) {
            Ok(_) => Some(Step { phase: Phase::StartingServer, action: Action::StartServer }),
            Err(error) => Some(fail(error)),
        },
        (Phase::StartingServer, Event::ServerStarted) => Some(
            Step { phase: Phase::Serving, action: Action::Hold },
        ),
        (Phase::StartingServer, Event::ServerFailed) => Some(fail(BringUpError::ServerStart)),
        _ => None,
    }
}

/// The step reached after the caller has reported `events`, in order, on an
/// attempt begun with [`start`]; nothing if one of them was not accepted.
pub open spec fn run(
    events: Seq<EventView>,
    target: Seq<char>,
    credential: Seq<char>,
) -> Option<StepView>
    decreases events.len(),
{
    if events.len() == 0 {
        Some(initial_step())
    } else {
        match run(events.drop_last(), target, credential) {
            Some(step) => transition(step.phase, events.last(), target, credential),
            None => None,
        }
    }
}

/// How far a phase is along the sequence. Both ways of ending count as the
/// farthest.
pub open spec fn progress(phase: Phase) -> nat {
    match phase {
        Phase::AcquiringDriver => 0,
        Phase::Scanning => 1,
        Phase::Configuring => 2,
        Phase::Validating => 3,
        Phase::StartingServer => 4,
        Phase::Serving => 5,
        Phase::Failed => 5,
    }
}

/// Reporting one more event extends a run by one transition.
pub proof fn run_extends(
    events: Seq<EventView>,
    event: EventView,
    target: Seq<char>,
    credential: Seq<char>,
)
    ensures
        run(events.push(event), target, credential) == match run(events, target, credential) {
            Some(step) => transition(step.phase, event, target, credential),
            None => None,
        },
{
    assert(events.push(event).drop_last() =~= events);
}

/// When the scan holds an entry named `target`, both roles are configured on
/// the channel of the first such entry.
pub proof fn match_sets_both_channels(
    scan: Seq<ScanEntry>,
    target: Seq<char>,
    credential: Seq<char>,
    i: int,
)
    requires
        is_first_match(scan, target, i),
    ensures
        radio_settings(target, credential, selected_channel(scan, target)).client.channel == Some(
            scan[i].channel,
        ),
        radio_settings(target, credential, selected_channel(scan, target)).access_point.channel
            == scan[i].channel,
{
    selection_takes_first_match(scan, target, i);
}

/// When the scan holds no entry named `target`, the client gets no channel
/// hint and the access point is hosted on channel 1.
pub proof fn no_match_falls_back(scan: Seq<ScanEntry>, target: Seq<char>, credential: Seq<char>)
    requires
        has_no_match(scan, target),
    ensures
        radio_settings(target, credential, selected_channel(scan, target)).client.channel is None,
        radio_settings(target, credential, selected_channel(scan, target)).access_point.channel
            == 1,
{
    selection_without_match(scan, target);
}

/// There is no way back and no second try: every accepted event moves the
/// attempt strictly forward.
pub proof fn every_step_makes_progress(
    phase: Phase,
    event: EventView,
    target: Seq<char>,
    credential: Seq<char>,
)
    ensures
        match transition(phase, event, target, credential) {
            Some(step) => progress(step.phase) > progress(phase),
            None => true,
        },
{
}

/// Once an attempt has failed, or the device is serving, no report is
/// accepted any more.
pub proof fn ended_attempt_accepts_nothing(
    phase: Phase,
    event: EventView,
    target: Seq<char>,
    credential: Seq<char>,
)
    requires
        phase == Phase::Failed || phase == Phase::Serving,
    ensures
        transition(phase, event, target, credential) is None,
{
}

/// An attempt is over after at most five reports: one for each of driver,
/// scan, configuration, status and server.
pub proof fn attempt_is_bounded(events: Seq<EventView>, target: Seq<char>, credential: Seq<char>)
    requires
        run(events, target, credential) is Some,
    ensures
        events.len() <= progress(run(events, target, credential)->0.phase) <= 5,
    decreases events.len(),
{
    if events.len() > 0 {
        attempt_is_bounded(events.drop_last(), target, credential);
    }
}

/// Until an attempt fails, its phase tells how many reports it has taken.
pub proof fn phase_counts_reports(events: Seq<EventView>, target: Seq<char>, credential: Seq<char>)
    requires
        run(events, target, credential) matches Some(step) && step.phase != Phase::Failed,
    ensures
        events.len() == progress(run(events, target, credential)->0.phase),
    decreases events.len(),
{
    if events.len() > 0 {
        phase_counts_reports(events.drop_last(), target, credential);
    }
}

/// The error an attempt ends with tells which action failed: the driver at
/// the first report, the scan at the second, the configuration at the third,
/// the status at the fourth, which then is the status the error carries, and
/// the server at the fifth.
pub proof fn error_names_failed_action(
    events: Seq<EventView>,
    target: Seq<char>,
    credential: Seq<char>,
    error: BringUpError,
)
    requires
        run(events, target, credential) == Some(failure(error)),
    ensures
        match error {
            BringUpError::PlatformInit => events.len() == 1,
            BringUpError::Scan => events.len() == 2,
            BringUpError::Configuration => events.len() == 3,
            BringUpError::StatusMismatch(status) => events.len() == 4 && events[3]
                == EventView::StatusReported(status) && !status.is_ready(),
            BringUpError::ServerStart => events.len() == 5,
        },
{
    if events.len() > 0 {
        phase_counts_reports(events.drop_last(), target, credential);
    }
}

/// A failure to apply the configuration ends the attempt with a configuration
/// error, whatever the scan had found.
pub proof fn configuration_failure_is_fatal(
    scan: Seq<ScanEntry>,
    target: Seq<char>,
    credential: Seq<char>,
)
    ensures
        run(
            seq![
                EventView::DriverAcquired,
                EventView::ScanCompleted(scan),
                EventView::ConfigurationRejected,
            ],
            target,
            credential,
        ) == Some(failure(BringUpError::Configuration)),
{
    let none = Seq::<EventView>::empty();
    let one = none.push(EventView::DriverAcquired);
    let two = one.push(EventView::ScanCompleted(scan));
    let three = two.push(EventView::ConfigurationRejected);
    run_extends(none, EventView::DriverAcquired, target, credential);
    run_extends(one, EventView::ScanCompleted(scan), target, credential);
    run_extends(two, EventView::ConfigurationRejected, target, credential);
    assert(three =~= seq![
        EventView::DriverAcquired,
        EventView::ScanCompleted(scan),
        EventView::ConfigurationRejected,
    ]);
}

/// The status decides alone whether the server is started: from the
/// validating phase the attempt goes on exactly when the client is connected
/// with an address and the access point has started with one, and ends with a
/// mismatch that carries the status in every other case.
pub proof fn only_ready_status_passes(
    status: RadioStatus,
    target: Seq<char>,
    credential: Seq<char>,
)
    ensures
        verdict(status) is Ok <==> status.client == ClientStatus::ConnectedWithAddress
            && status.access_point == AccessPointStatus::StartedWithAddress,
        transition(Phase::Validating, EventView::StatusReported(status), target, credential)
            == Some(
            if status.client == ClientStatus::ConnectedWithAddress && status.access_point
                == AccessPointStatus::StartedWithAddress {
                StepView { phase: Phase::StartingServer, action: ActionView::StartServer }
            } else {
                failure(BringUpError::StatusMismatch(status))
            },
        ),
{
}

/// With every action succeeding and both roles ready, the attempt applies the
/// configuration derived from the scan and ends up serving.
pub proof fn ready_radio_reaches_serving(
    scan: Seq<ScanEntry>,
    status: RadioStatus,
    target: Seq<char>,
    credential: Seq<char>,
)
    requires
        status.is_ready(),
    ensures
        run(seq![EventView::DriverAcquired, EventView::ScanCompleted(scan)], target, credential)
            == Some(
            StepView {
                phase: Phase::Configuring,
                action: ActionView::Apply(
                    radio_settings(target, credential, selected_channel(scan, target)),
                ),
            },
        ),
        run(
            seq![
                EventView::DriverAcquired,
                EventView::ScanCompleted(scan),
                EventView::ConfigurationApplied,
                EventView::StatusReported(status),
                EventView::ServerStarted,
            ],
            target,
            credential,
        ) == Some(StepView { phase: Phase::Serving, action: ActionView::Hold }),
{
    let none = Seq::<EventView>::empty();
    let one = none.push(EventView::DriverAcquired);
    let two = one.push(EventView::ScanCompleted(scan));
    let three = two.push(EventView::ConfigurationApplied);
    let four = three.push(EventView::StatusReported(status));
    let five = four.push(EventView::ServerStarted);
    run_extends(none, EventView::DriverAcquired, target, credential);
    run_extends(one, EventView::ScanCompleted(scan), target, credential);
    run_extends(two, EventView::ConfigurationApplied, target, credential);
    run_extends(three, EventView::StatusReported(status), target, credential);
    run_extends(four, EventView::ServerStarted, target, credential);
    assert(two =~= seq![EventView::DriverAcquired, EventView::ScanCompleted(scan)]);
    assert(five =~= seq![
        EventView::DriverAcquired,
        EventView::ScanCompleted(scan),
        EventView::ConfigurationApplied,
        EventView::StatusReported(status),
        EventView::ServerStarted,
    ]);
}

/// The event reports a status in which the client is connected with an
/// address and the access point has started with one.
pub open spec fn reports_ready(event: EventView) -> bool {
    match event {
        EventView::StatusReported(status) => status.is_ready(),
        _ => false,
    }
}

/// The route table is never served by a radio that was not found ready: an
/// attempt that has got as far as starting the server, or serving, has been
/// reported a status with the client connected with an address and the access
/// point started with one.
pub proof fn serving_requires_ready_radio(
    events: Seq<EventView>,
    target: Seq<char>,
    credential: Seq<char>,
)
    requires
        run(events, target, credential) matches Some(step) && (step.phase == Phase::StartingServer
            || step.phase == Phase::Serving),
    ensures
        exists|i: int| 0 <= i < events.len() && reports_ready(#[trigger] events[i]),
    decreases events.len(),
{
    let before = events.drop_last();
    let last = events.len() - 1;
    if run(events, target, credential)->0.phase == Phase::Serving {
        serving_requires_ready_radio(before, target, credential);
        let i = choose|i: int| 0 <= i < before.len() && reports_ready(#[trigger] before[i]);
        assert(events[i] == before[i]);
    } else {
        assert(reports_ready(events[last]));
    }
}

} // verus!
