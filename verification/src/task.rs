//! The task of one port: what it does after each network outcome, and the
//! single result that it ends with.

use crate::banner::{banner_from_bytes, banner_of_bytes};
use crate::outcome::{PortResult, PortStatus};
use vstd::prelude::*;

verus! {

/// Where a port task stands.
#[derive(Clone, Copy, Debug, PartialEq, Eq, Structural)]
pub enum TaskPhase {
    /// The connection attempt is under way.
    Connecting,
    /// The connection is open and the banner is being collected.
    Collecting,
    /// The result has been emitted.
    Finished,
}

/// What the network did for a port task.
#[derive(Clone, Debug, PartialEq, Eq)]
pub enum TaskEvent {
    /// The connection was established before the timeout.
    Connected,
    /// The connection was refused, failed, or timed out.
    ConnectFailed,
    /// Banner collection ended; these are the bytes that the peer sent until
    /// it closed the connection or the read timed out.
    BannerRead(Vec<u8>),
    /// Writing the probe or reading the answer failed.
    BannerFailed,
}

/// What a port task asks for next.
#[derive(Clone, Debug, PartialEq, Eq)]
pub enum TaskAction {
    /// Send the probe on the open connection, read what comes back within
    /// the timeout, close the connection.
    CollectBanner,
    /// Hand this result to the reporter and give the slot back.
    Emit(PortResult),
    /// The event does not belong to the task's phase; nothing is to be done.
    Ignore,
}

/// The task of one port.
#[derive(Clone, Copy, Debug, PartialEq, Eq, Structural)]
pub struct PortTask {
    port: u16,
    capture_banner: bool,
    phase: TaskPhase,
}

/// The plain content of an event, by which contracts speak of it.
pub enum EventView {
    /// See `TaskEvent::Connected`.
    Connected,
    /// See `TaskEvent::ConnectFailed`.
    ConnectFailed,
    /// See `TaskEvent::BannerRead`.
    BannerRead(Seq<u8>),
    /// See `TaskEvent::BannerFailed`.
    BannerFailed,
}

/// The plain content of an action, by which contracts speak of it.
pub enum ActionView {
    /// See `TaskAction::CollectBanner`.
    CollectBanner,
    /// See `TaskAction::Emit`: port, status, banner.
    Emit(u16, PortStatus, Option<Seq<char>>),
    /// See `TaskAction::Ignore`.
    Ignore,
}

impl View for TaskEvent {
    type V = EventView;

    open spec fn view(&self) -> EventView {
        match self {
            TaskEvent::Connected => EventView::Connected,
            TaskEvent::ConnectFailed => EventView::ConnectFailed,
            TaskEvent::BannerRead(bytes) => EventView::BannerRead(bytes@),
            TaskEvent::BannerFailed => EventView::BannerFailed,
        }
    }
}

impl View for TaskAction {
    type V = ActionView;

    open spec fn view(&self) -> ActionView {
        match self {
            TaskAction::CollectBanner => ActionView::CollectBanner,
            TaskAction::Emit(result) => ActionView::Emit(
                result.spec_port(),
                result.spec_status(),
                result.spec_banner(),
            ),
            TaskAction::Ignore => ActionView::Ignore,
        }
    }
}

/// The phase that follows `phase` on `event`.
pub open spec fn next_phase(capture_banner: bool, phase: TaskPhase, event: EventView) -> TaskPhase {
    match (phase, event) {
        (TaskPhase::Connecting, EventView::ConnectFailed) => TaskPhase::Finished,
        (TaskPhase::Connecting, EventView::Connected) => if capture_banner {
            TaskPhase::Collecting
        } else {
            TaskPhase::Finished
        },
        (TaskPhase::Collecting, EventView::BannerRead(_)) => TaskPhase::Finished,
        (TaskPhase::Collecting, EventView::BannerFailed) => TaskPhase::Finished,
        _ => phase,
    }
}

/// The action that a task for `port` in `phase` answers `event` with.
pub open spec fn action_for(
    port: u16,
    capture_banner: bool,
    phase: TaskPhase,
    event: EventView,
) -> ActionView {
    match (phase, event) {
        (TaskPhase::Connecting, EventView::ConnectFailed) => ActionView::Emit(
            port,
            PortStatus::Closed,
            None,
        ),
        (TaskPhase::Connecting, EventView::Connected) => if capture_banner {
            ActionView::CollectBanner
        } else {
            ActionView::Emit(port, PortStatus::Open, None)
        },
        (TaskPhase::Collecting, EventView::BannerRead(bytes)) => ActionView::Emit(
            port,
            PortStatus::Open,
            banner_of_bytes(bytes),
        ),
        (TaskPhase::Collecting, EventView::BannerFailed) => ActionView::Emit(
            port,
            PortStatus::Open,
            None,
        ),
        _ => ActionView::Ignore,
    }
}

/// The phase of a task that started connecting and has seen `events`.
pub open spec fn phase_after(capture_banner: bool, events: Seq<EventView>) -> TaskPhase
    decreases events.len(),
{
    if events.len() == 0 {
        TaskPhase::Connecting
    } else {
        next_phase(capture_banner, phase_after(capture_banner, events.drop_last()), events.last())
    }
}

/// Number of results that a task for `port` has emitted while it saw
/// `events`.
pub open spec fn emitted(port: u16, capture_banner: bool, events: Seq<EventView>) -> nat
    decreases events.len(),
{
    if events.len() == 0 {
        0
    } else {
        let earlier = emitted(port, capture_banner, events.drop_last());
        let phase = phase_after(capture_banner, events.drop_last());
        match action_for(port, capture_banner, phase, events.last()) {
            ActionView::Emit(_, _, _) => earlier + 1,
            _ => earlier,
        }
    }
}

/// A task emits a result exactly when it finishes, and a finished task
/// ignores whatever comes after.
pub proof fn lemma_emits_on_finishing(
    port: u16,
    capture_banner: bool,
    phase: TaskPhase,
    event: EventView,
)
    ensures
        action_for(port, capture_banner, phase, event) is Emit <==> phase != TaskPhase::Finished
            && next_phase(capture_banner, phase, event) == TaskPhase::Finished,
        action_for(port, capture_banner, phase, event) matches ActionView::Emit(p, _, _) ==> p
            == port,
        phase == TaskPhase::Finished ==> next_phase(capture_banner, phase, event)
            == TaskPhase::Finished,
{
}

/// Whatever events reach it, a task emits one result when it finishes and
/// none before or after: the number of results emitted is 1 for a finished
/// task and 0 for any other.
pub proof fn lemma_exactly_one_result(port: u16, capture_banner: bool, events: Seq<EventView>)
    ensures
        emitted(port, capture_banner, events) == if phase_after(capture_banner, events)
            == TaskPhase::Finished {
            1nat
        } else {
            0nat
        },
    decreases events.len(),
{
    if events.len() > 0 {
        lemma_exactly_one_result(port, capture_banner, events.drop_last());
        lemma_emits_on_finishing(
            port,
            capture_banner,
            phase_after(capture_banner, events.drop_last()),
            events.last(),
        );
    }
}

/// A connection that could not be made gives a closed result at once,
/// whether banners are captured or not and however often it is tried.
pub proof fn lemma_failed_connection_is_closed(port: u16, capture_banner: bool)
    ensures
        action_for(port, capture_banner, TaskPhase::Connecting, EventView::ConnectFailed)
            == ActionView::Emit(port, PortStatus::Closed, None),
        next_phase(capture_banner, TaskPhase::Connecting, EventView::ConnectFailed)
            == TaskPhase::Finished,
{
}

/// The banner is asked for only on a connection that was just established,
/// and only where banners are captured.
pub proof fn lemma_banner_needs_open_connection(
    port: u16,
    capture_banner: bool,
    phase: TaskPhase,
    event: EventView,
)
    ensures
        action_for(port, capture_banner, phase, event) is CollectBanner <==> capture_banner
            && phase == TaskPhase::Connecting && event is Connected,
{
}

/// A peer that accepts the connection and sends nothing, whether it closes
/// or stays silent until the timeout, gives an open port without a banner.
pub proof fn lemma_silent_peer_is_open(port: u16)
    ensures
        action_for(port, true, TaskPhase::Collecting, EventView::BannerRead(Seq::empty()))
            == ActionView::Emit(port, PortStatus::Open, None),
{
}

impl PortTask {
    /// The port that the task is for.
    pub closed spec fn spec_port(&self) -> u16 {
        self.port
    }

    /// Whether the task collects a banner from an open port.
    pub closed spec fn spec_capture_banner(&self) -> bool {
        self.capture_banner
    }

    /// Where the task stands.
    pub closed spec fn spec_phase(&self) -> TaskPhase {
        self.phase
    }

    /// A task for `port` whose connection attempt is about to be made.
    pub fn new(port: u16, capture_banner: bool) -> (task: PortTask)
        ensures
            task.spec_port() == port,
            task.spec_capture_banner() == capture_banner,
            task.spec_phase() == TaskPhase::Connecting,
    {
        PortTask { port, capture_banner, phase: TaskPhase::Connecting }
    }

    /// The port that the task is for.
    pub fn port(&self) -> (r: u16)
        ensures
            r == self.spec_port(),
    {
        self.port
    }

    /// Where the task stands.
    pub fn phase(&self) -> (r: TaskPhase)
        ensures
            r == self.spec_phase(),
    {
        self.phase
    }

    /// Whether the task has emitted its result.
    pub fn is_finished(&self) -> (r: bool)
        ensures
            r == (self.spec_phase() == TaskPhase::Finished),
    {
        match self.phase {
            TaskPhase::Finished => true,
            _ => false,
        }
    }

    /// Takes what the network did and says what to do next. A failed
    /// connection ends the task with a closed result, and no banner is ever
    /// read for it. An open connection ends it at once where banners are not
    /// captured; else it asks for the banner and ends with what came back,
    /// a failure counting as no banner.
    pub fn handle(&mut self, event: TaskEvent) -> (action: TaskAction)
        ensures
            final(self).spec_port() == old(self).spec_port(),
            final(self).spec_capture_banner() == old(self).spec_capture_banner(),
            final(self).spec_phase() == next_phase(
                old(self).spec_capture_banner(),
                old(self).spec_phase(),
                event@,
            ),
            action@ == action_for(
                old(self).spec_port(),
                old(self).spec_capture_banner(),
                old(self).spec_phase(),
                event@,
            ),
            action matches TaskAction::Emit(result) ==> result.wf(),
    {
        match self.phase {
            TaskPhase::Connecting => match event {
                TaskEvent::ConnectFailed => {
                    self.phase = TaskPhase::Finished;
                    TaskAction::Emit(PortResult::closed(self.port))
                },
                TaskEvent::Connected => {
                    if self.capture_banner {
                        self.phase = TaskPhase::Collecting;
                        TaskAction::CollectBanner
                    } else {
                        self.phase = TaskPhase::Finished;
                        TaskAction::Emit(PortResult::open(self.port))
                    }
                },
                _ => TaskAction::Ignore,
            },
            TaskPhase::Collecting => match event {
                TaskEvent::BannerRead(bytes) => {
                    self.phase = TaskPhase::Finished;
                    let banner = banner_from_bytes(bytes.as_slice());
                    TaskAction::Emit(PortResult::open_with(self.port, banner))
                },
                TaskEvent::BannerFailed => {
                    self.phase = TaskPhase::Finished;
                    TaskAction::Emit(PortResult::open(self.port))
                },
                _ => TaskAction::Ignore,
            },
            TaskPhase::Finished => TaskAction::Ignore,
        }
    }
}

} // verus!
