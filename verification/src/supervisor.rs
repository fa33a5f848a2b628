//! The fault-driven restart supervisor: the decisions of the top-level
//! control loop.
//!
//! The loop itself — performing bring-up actions, sleeping, restarting the
//! device — runs outside this crate; every decision of what happens next is
//! taken here, as a step function from state and event to the next state
//! and the action to perform.

use vstd::prelude::*;

use crate::consts::RESTART_BACKOFF_SECS;
use crate::consts::TICK_INTERVAL_SECS;
use crate::thingsup::BringUpProbe;
use crate::thingsup::DisplayHandle;
use crate::thingsup::init_front_display;
use crate::types::AppError;
use crate::types::HBeePeripherals;
use crate::types::PeripheralSet;
use crate::types::SensorDataMessage;
use crate::types::UIInitError;
use crate::ui::ScanlineRequest;
use crate::ui::SensorData;
use crate::ui::UILineRenderrer;

verus! {

/// Lifecycle states of the device. The only way out of a fault is the
/// backoff-then-restart path; a restart re-enters `Starting` in a new
/// process instance, never in this one.
#[derive(Clone, Copy, Debug, PartialEq, Eq, Structural)]
pub enum SupervisorState {
    /// Bring-up runs: allocator, bus driver, controller initializer, in
    /// order.
    Starting,
    /// Steady state: regenerate readings, render, sleep, repeat.
    Running,
    /// A fatal fault was classified; it is logged once, with the backoff.
    Faulted(AppError),
    /// Waiting out the backoff; then the device restarts wholesale.
    Restarting,
}

/// What the loop outside reports back to the supervisor.
#[derive(Clone, Copy, Debug, PartialEq, Eq, Structural)]
pub enum SupervisorEvent {
    /// Bring-up finished with a drawable display.
    BringUpSucceeded,
    /// A bring-up stage failed with its classified fault.
    BringUpFailed(AppError),
    /// One steady-state tick completed. Per-line draw faults are counted
    /// inside the tick and never surface as an event: they do not leave
    /// `Running`.
    TickCompleted,
    /// The fault and the backoff have been written to the log.
    FaultLogged,
    /// The full backoff interval has elapsed.
    BackoffElapsed,
}

/// What the loop outside is told to do next.
#[derive(Clone, Copy, Debug, PartialEq, Eq, Structural)]
pub enum SupervisorAction {
    /// Run the bring-up sequence once.
    RunBringUp,
    /// Render one frame of sensor data, then sleep this many seconds.
    RenderAndSleep(u64),
    /// Log the fault together with the backoff it announces, in seconds.
    LogFault(AppError, u64),
    /// Sleep this many seconds of backoff.
    WaitBackoff(u64),
    /// Perform the full hardware restart. Irrevocable.
    RestartDevice,
}

/// The supervisor's transition relation. Events that cannot occur in a
/// state leave it unchanged with nothing to do.
pub open spec fn spec_step(s: SupervisorState, e: SupervisorEvent) -> (
    SupervisorState,
    Option<SupervisorAction>,
) {
    match (s, e) {
        (SupervisorState::Starting, SupervisorEvent::BringUpSucceeded) => (
            SupervisorState::Running,
            Some(SupervisorAction::RenderAndSleep(TICK_INTERVAL_SECS)),
        ),
        (SupervisorState::Starting, SupervisorEvent::BringUpFailed(err)) => (
            SupervisorState::Faulted(err),
            Some(SupervisorAction::LogFault(err, RESTART_BACKOFF_SECS)),
        ),
        (SupervisorState::Running, SupervisorEvent::TickCompleted) => (
            SupervisorState::Running,
            Some(SupervisorAction::RenderAndSleep(TICK_INTERVAL_SECS)),
        ),
        (SupervisorState::Faulted(_), SupervisorEvent::FaultLogged) => (
            SupervisorState::Restarting,
            Some(SupervisorAction::WaitBackoff(RESTART_BACKOFF_SECS)),
        ),
        (SupervisorState::Restarting, SupervisorEvent::BackoffElapsed) => (
            SupervisorState::Restarting,
            Some(SupervisorAction::RestartDevice),
        ),
        (s2, _) => (s2, None),
    }
}

/// Advances the supervisor by one event.
pub fn step(s: SupervisorState, e: SupervisorEvent) -> (r: (
    SupervisorState,
    Option<SupervisorAction>,
))
    ensures
        r == spec_step(s, e),
{
    match (s, e) {
        (SupervisorState::Starting, SupervisorEvent::BringUpSucceeded) => (
            SupervisorState::Running,
            Some(SupervisorAction::RenderAndSleep(TICK_INTERVAL_SECS)),
        ),
        (SupervisorState::Starting, SupervisorEvent::BringUpFailed(err)) => (
            SupervisorState::Faulted(err),
            Some(SupervisorAction::LogFault(err, RESTART_BACKOFF_SECS)),
        ),
        (SupervisorState::Running, SupervisorEvent::TickCompleted) => (
            SupervisorState::Running,
            Some(SupervisorAction::RenderAndSleep(TICK_INTERVAL_SECS)),
        ),
        (SupervisorState::Faulted(_), SupervisorEvent::FaultLogged) => (
            SupervisorState::Restarting,
            Some(SupervisorAction::WaitBackoff(RESTART_BACKOFF_SECS)),
        ),
        (SupervisorState::Restarting, SupervisorEvent::BackoffElapsed) => (
            SupervisorState::Restarting,
            Some(SupervisorAction::RestartDevice),
        ),
        (s2, _) => (s2, None),
    }
}

/// A failed bring-up faults the supervisor and restarts the device only
/// after the full backoff: the fault takes `Starting` to `Faulted`, where
/// the fault is logged with the backoff; logging takes it to `Restarting`,
/// which waits the whole backoff; and only the elapsed backoff triggers the
/// restart. Bring-up is never re-attempted first: no event moves `Faulted`
/// or `Restarting` back to `Starting` or `Running`, and no action they emit
/// is a bring-up.
pub proof fn lemma_fault_to_restart_within_backoff(err: AppError)
    ensures
        spec_step(SupervisorState::Starting, SupervisorEvent::BringUpFailed(err)) == (
            SupervisorState::Faulted(err),
            Some(SupervisorAction::LogFault(err, RESTART_BACKOFF_SECS)),
        ),
        spec_step(SupervisorState::Faulted(err), SupervisorEvent::FaultLogged) == (
            SupervisorState::Restarting,
            Some(SupervisorAction::WaitBackoff(RESTART_BACKOFF_SECS)),
        ),
        spec_step(SupervisorState::Restarting, SupervisorEvent::BackoffElapsed) == (
            SupervisorState::Restarting,
            Some(SupervisorAction::RestartDevice),
        ),
        forall|e: SupervisorEvent|
            {
                let next = (#[trigger] spec_step(SupervisorState::Faulted(err), e)).0;
                next != SupervisorState::Starting && next != SupervisorState::Running
            },
        forall|e: SupervisorEvent|
            (#[trigger] spec_step(SupervisorState::Restarting, e)).0
                == SupervisorState::Restarting,
        forall|e: SupervisorEvent|
            (#[trigger] spec_step(SupervisorState::Faulted(err), e)).1 != Some(
                SupervisorAction::RunBringUp,
            ) && spec_step(SupervisorState::Restarting, e).1 != Some(
                SupervisorAction::RunBringUp,
            ),
        forall|e: SupervisorEvent|
            e != SupervisorEvent::BackoffElapsed ==> (#[trigger] spec_step(
                SupervisorState::Restarting,
                e,
            )).1 != Some(SupervisorAction::RestartDevice),
{
}

/// One steady-state tick of the running device: replaces the readings
/// wholesale, unfolds them to the view the UI binds, and renders the frame
/// the toolkit produced for them as independent line writes — a refused
/// write is counted and the frame goes on. The requests are the toolkit's
/// scanline output, one write per distinct row; `bus_ok` is what the bus
/// reported for each.
pub fn tick(
    msg: &mut SensorDataMessage,
    renderer: &mut UILineRenderrer,
    requests: &Vec<ScanlineRequest>,
    bus_ok: &Vec<bool>,
) -> (shown: SensorData)
    requires
        old(renderer).display.wf(),
        bus_ok@.len() == requests@.len(),
        forall|i: int|
            0 <= i < requests@.len() ==> (#[trigger] requests@[i]).row < old(
                renderer,
            ).display.spec_height(),
        forall|i: int|
            0 <= i < requests@.len() ==> (#[trigger] requests@[i]).col_start
                + requests@[i].pixels@.len() <= old(renderer).display.spec_width(),
        forall|i: int|
            0 <= i < requests@.len() ==> (#[trigger] requests@[i]).col_start
                + requests@[i].pixels@.len() <= old(renderer).line_buffer@.len(),
        forall|i: int, j: int|
            0 <= i < j < requests@.len() ==> (#[trigger] requests@[i]).row != (
            #[trigger] requests@[j]).row,
    ensures
        final(msg).wf(),
        final(msg).randomized(),
        final(msg).electrical_resistivity == old(msg).electrical_resistivity,
        final(msg).total_dissolved_solids == old(msg).total_dissolved_solids,
        shown == crate::ui::sensor_view(*final(msg)),
        final(renderer).display.wf(),
        final(renderer).display.spec_width() == old(renderer).display.spec_width(),
        final(renderer).display.spec_height() == old(renderer).display.spec_height(),
        forall|i: int, k: int|
            0 <= i < requests@.len() && bus_ok@[i] && 0 <= k < requests@[i].pixels@.len()
                ==> #[trigger] requests@[i].pixels@[k] == final(renderer).display.word_at(
                requests@[i].col_start + k,
                requests@[i].row as int,
            ),
        forall|x: int, y: int|
            0 <= x < old(renderer).display.spec_width() && 0 <= y < old(
                renderer,
            ).display.spec_height() && !crate::ui::covered_upto(
                requests@,
                bus_ok@,
                requests@.len() as int,
                x,
                y,
            ) ==> final(renderer).display.word_at(x, y) == old(renderer).display.word_at(x, y),
{
    msg.regen_random();
    let shown = SensorData::from(&*msg);
    renderer.render_frame(requests, bus_ok);
    shown
}

/// One full bring-up attempt, in the mandated order: claim the peripheral
/// capability from the singleton set, package it, open the bus channel and
/// run the controller handshake, then register with the UI toolkit. The
/// first failing stage aborts the attempt with its classified fault; there
/// is no partial retry within the process.
pub fn run_bring_up(
    set: &mut PeripheralSet,
    bus_fault: Option<i32>,
    probe: &BringUpProbe,
    ui_init: Result<(), UIInitError>,
) -> (r: Result<DisplayHandle, AppError>)
    ensures
        final(set).consumed(),
        old(set).consumed() ==> r == Err::<DisplayHandle, AppError>(
            AppError::EspError(crate::consts::ESP_ERR_INVALID_STATE),
        ),
        !old(set).consumed() ==> {
            &&& (r is Ok <==> bus_fault is None && probe.all_clear() && ui_init is Ok)
            &&& (bus_fault matches Some(c) ==> r == Err::<DisplayHandle, AppError>(
                AppError::EspError(c),
            ))
            &&& (bus_fault is None && !probe.all_clear() ==> (r matches Err(e) ==> Some(e)
                == probe.first_fault()))
            &&& (bus_fault is None && probe.all_clear() ==> (ui_init matches Err(u) ==> r
                == Err::<DisplayHandle, AppError>(crate::types::app_error_of_ui(u))))
        },
        r matches Ok(h) ==> h.wf() && h.width == crate::consts::DISPLAY_WIDTH && h.height
            == crate::consts::DISPLAY_HEIGHT,
{
    let peripherals = match set.take() {
        Ok(p) => p,
        Err(e) => {
            return Err(e);
        },
    };
    let periph = HBeePeripherals::from(peripherals);
    let front_display = match init_front_display(&periph.front_display, bus_fault, probe) {
        Ok(h) => h,
        Err(e) => {
            return Err(e);
        },
    };
    match ui_init {
        Ok(_) => Ok(front_display),
        Err(u) => Err(AppError::from(u)),
    }
}

} // verus!
