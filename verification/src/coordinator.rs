//! The scan coordinator: it hands out every port of the range once, never
//! has more tasks in flight than there are slots, and knows when the scan
//! is complete.
//!
//! The coordinator performs no network work. Its caller asks it for the next
//! step, starts a task for each port that is handed out, and reports each
//! task's result back, which frees the task's slot.

use crate::config::ScanConfig;
use crate::outcome::PortResult;
use crate::slots::SlotPool;
use vstd::prelude::*;

verus! {

/// What the coordinator's caller has to do next.
#[derive(Clone, Copy, Debug, PartialEq, Eq, Structural)]
pub enum Step {
    /// A slot was taken for this port: start its task.
    Dispatch(u16),
    /// Every slot is taken, or every port is out and tasks are still
    /// running: wait for a task to finish and record its result.
    Wait,
    /// Every port of the range has been handed out and has reported.
    Done,
}

/// The coordinator's state as plain values.
pub struct ScanState {
    /// The configuration that the scan runs under.
    pub config: ScanConfig,
    /// The port that is handed out next; one past the last port when every
    /// port is out.
    pub next: int,
    /// The ports whose tasks hold a slot, in the order they were handed out.
    pub in_flight: Seq<u16>,
    /// Number of results recorded so far.
    pub completed: int,
}

impl ScanState {
    /// First port of the range.
    pub open spec fn first(self) -> int {
        self.config.spec_first_port() as int
    }

    /// Last port of the range.
    pub open spec fn last(self) -> int {
        self.config.spec_last_port() as int
    }

    /// Number of concurrency slots.
    pub open spec fn limit(self) -> int {
        self.config.spec_concurrency() as int
    }

    /// The state before any port is handed out.
    pub open spec fn initial(config: ScanConfig) -> ScanState {
        ScanState {
            config,
            next: config.spec_first_port() as int,
            in_flight: Seq::empty(),
            completed: 0,
        }
    }

    /// What holds of every state that a scan reaches: the ports in flight
    /// are distinct ports that were handed out, they are no more than the
    /// slots, and every other port that was handed out has been recorded.
    pub open spec fn inv(self) -> bool {
        &&& self.config.wf()
        &&& self.first() <= self.next <= self.last() + 1
        &&& self.in_flight.no_duplicates()
        &&& forall|i: int|
            0 <= i < self.in_flight.len() ==> self.first() <= #[trigger] self.in_flight[i]
                < self.next
        &&& self.in_flight.len() <= self.limit()
        &&& 0 <= self.completed
        &&& self.completed + self.in_flight.len() == self.next - self.first()
    }

    /// Whether the result of `port` has been recorded: the port was handed
    /// out and its task is no longer in flight.
    pub open spec fn has_result(self, port: int) -> bool {
        &&& self.first() <= port < self.next
        &&& forall|i: int| 0 <= i < self.in_flight.len() ==> #[trigger] self.in_flight[i] != port
    }

    /// What the coordinator answers in this state.
    pub open spec fn decision(self) -> Step {
        if self.next <= self.last() && self.in_flight.len() < self.limit() {
            Step::Dispatch(self.next as u16)
        } else if self.in_flight.len() > 0 {
            Step::Wait
        } else {
            Step::Done
        }
    }

    /// The state after the coordinator has answered: a port that is handed
    /// out is in flight; any other answer changes nothing.
    pub open spec fn stepped(self) -> ScanState {
        match self.decision() {
            Step::Dispatch(port) => ScanState {
                next: self.next + 1,
                in_flight: self.in_flight.push(port),
                ..self
            },
            _ => self,
        }
    }

    /// Whether a task for `port` holds a slot.
    pub open spec fn is_in_flight(self, port: u16) -> bool {
        self.in_flight.contains(port)
    }

    /// The state after a result for `port` was offered: where the port is in
    /// flight its slot is freed and the result counted; else nothing changes.
    pub open spec fn recorded(self, port: u16) -> ScanState {
        if self.is_in_flight(port) {
            ScanState {
                in_flight: self.in_flight.remove(self.in_flight.index_of(port)),
                completed: self.completed + 1,
                ..self
            }
        } else {
            self
        }
    }

    /// The state after `count` answers in a row with no result recorded in
    /// between.
    pub open spec fn stepped_times(self, count: nat) -> ScanState
        decreases count,
    {
        if count == 0 {
            self
        } else {
            self.stepped_times((count - 1) as nat).stepped()
        }
    }
}

/// A scan starts in a state that satisfies the invariant.
pub proof fn lemma_initial_inv(config: ScanConfig)
    requires
        config.wf(),
    ensures
        ScanState::initial(config).inv(),
{
}

/// Answering keeps the invariant, so the ports in flight never outnumber the
/// slots.
pub proof fn lemma_step_keeps_inv(s: ScanState)
    requires
        s.inv(),
    ensures
        s.stepped().inv(),
        s.stepped().in_flight.len() <= s.limit(),
{
    if let Step::Dispatch(port) = s.decision() {
        let t = s.stepped();
        assert(port == s.next);
        assert forall|i: int, j: int|
            0 <= i < t.in_flight.len() && 0 <= j < t.in_flight.len() && i != j implies t.in_flight[i]
            != t.in_flight[j] by {
            if i < s.in_flight.len() {
                assert(t.in_flight[i] == s.in_flight[i]);
            }
            if j < s.in_flight.len() {
                assert(t.in_flight[j] == s.in_flight[j]);
            }
        }
        assert forall|i: int| 0 <= i < t.in_flight.len() implies t.first()
            <= #[trigger] t.in_flight[i] < t.next by {
            if i < s.in_flight.len() {
                assert(t.in_flight[i] == s.in_flight[i]);
            }
        }
    }
}

/// Recording a result keeps the invariant; where the port was in flight it
/// has its result afterwards and holds no slot.
pub proof fn lemma_record_keeps_inv(s: ScanState, port: u16)
    requires
        s.inv(),
    ensures
        s.recorded(port).inv(),
        s.is_in_flight(port) ==> s.recorded(port).has_result(port as int),
        s.is_in_flight(port) ==> s.recorded(port).in_flight.len() == s.in_flight.len() - 1,
{
    if s.is_in_flight(port) {
        let at = s.in_flight.index_of(port);
        let t = s.recorded(port);
        assert(0 <= at < s.in_flight.len() && s.in_flight[at] == port);
        assert(t.in_flight.len() == s.in_flight.len() - 1);
        assert forall|i: int| 0 <= i < t.in_flight.len() implies #[trigger] t.in_flight[i]
            == s.in_flight[if i < at {
            i
        } else {
            i + 1
        }] by {}
        assert forall|i: int, j: int|
            0 <= i < t.in_flight.len() && 0 <= j < t.in_flight.len() && i != j implies t.in_flight[i]
            != t.in_flight[j] by {
            let si = if i < at {
                i
            } else {
                i + 1
            };
            let sj = if j < at {
                j
            } else {
                j + 1
            };
            assert(t.in_flight[i] == s.in_flight[si]);
            assert(t.in_flight[j] == s.in_flight[sj]);
        }
        assert forall|i: int| 0 <= i < t.in_flight.len() implies t.first()
            <= #[trigger] t.in_flight[i] < t.next && t.in_flight[i] != port by {
            let si = if i < at {
                i
            } else {
                i + 1
            };
            assert(t.in_flight[i] == s.in_flight[si]);
            assert(si != at);
        }
    }
}

/// A recorded result stays recorded: no later answer hands the port out
/// again, and no later result takes its place.
pub proof fn lemma_result_is_final(s: ScanState, port: int, other: u16)
    requires
        s.inv(),
        s.has_result(port),
    ensures
        s.stepped().has_result(port),
        s.recorded(other).has_result(port),
        port == other ==> s.recorded(other) == s,
{
    if let Step::Dispatch(handed) = s.decision() {
        let t = s.stepped();
        assert forall|i: int| 0 <= i < t.in_flight.len() implies #[trigger] t.in_flight[i]
            != port by {
            if i < s.in_flight.len() {
                assert(t.in_flight[i] == s.in_flight[i]);
            }
        }
    }
    if s.is_in_flight(other) {
        let at = s.in_flight.index_of(other);
        let t = s.recorded(other);
        assert forall|i: int| 0 <= i < t.in_flight.len() implies #[trigger] t.in_flight[i]
            != port by {
            let si = if i < at {
                i
            } else {
                i + 1
            };
            assert(t.in_flight[i] == s.in_flight[si]);
        }
    }
}

/// When the coordinator answers `Done`, every port of the range has exactly
/// one recorded result: none is in flight, none was skipped, and the number
/// of results is the number of ports.
pub proof fn lemma_done_covers_range(s: ScanState)
    requires
        s.inv(),
        s.decision() == Step::Done,
    ensures
        s.completed == s.config.spec_port_count(),
        s.in_flight.len() == 0,
        forall|port: int| s.config.covers(port) ==> s.has_result(port),
{
}

/// The coordinator never answers `Wait` or `Done` while a port is left and a
/// slot is free, and never `Wait` when no task is running: a scan cannot
/// stall.
pub proof fn lemma_no_stall(s: ScanState)
    requires
        s.inv(),
    ensures
        s.decision() == Step::Wait ==> s.in_flight.len() > 0,
        s.decision() == Step::Done ==> s.next == s.last() + 1,
        s.next <= s.last() && s.in_flight.len() < s.limit() ==> s.decision() == Step::Dispatch(
            s.next as u16,
        ),
{
}

/// With a single slot the ports are processed strictly one after another:
/// a port is handed out only when no task is running, and every port before
/// it has its result by then.
pub proof fn lemma_single_slot_is_sequential(s: ScanState, port: u16)
    requires
        s.inv(),
        s.limit() == 1,
        s.decision() == Step::Dispatch(port),
    ensures
        s.in_flight.len() == 0,
        forall|earlier: int| s.first() <= earlier < port ==> s.has_result(earlier),
{
}

/// With as many slots as ports, no port ever waits for a slot.
pub proof fn lemma_full_width_never_waits(s: ScanState)
    requires
        s.inv(),
        s.limit() >= s.config.spec_port_count(),
        s.next <= s.last(),
    ensures
        s.decision() == Step::Dispatch(s.next as u16),
{
}

/// With as many slots as ports, the whole range is handed out before any
/// result is recorded: after `count` answers the first `count` ports are in
/// flight.
pub proof fn lemma_full_parallel_dispatch(config: ScanConfig, count: nat)
    requires
        config.wf(),
        config.spec_concurrency() >= config.spec_port_count(),
        count <= config.spec_port_count(),
    ensures
        ScanState::initial(config).stepped_times(count).inv(),
        ScanState::initial(config).stepped_times(count).config == config,
        ScanState::initial(config).stepped_times(count).next == config.spec_first_port() + count,
        ScanState::initial(config).stepped_times(count).completed == 0,
        ScanState::initial(config).stepped_times(count).in_flight.len() == count,
        forall|i: int|
            0 <= i < count ==> #[trigger] ScanState::initial(config).stepped_times(
                count,
            ).in_flight[i] == config.spec_first_port() + i,
    decreases count,
{
    let start = ScanState::initial(config);
    if count > 0 {
        let before = start.stepped_times((count - 1) as nat);
        lemma_full_parallel_dispatch(config, (count - 1) as nat);
        lemma_step_keeps_inv(before);
        lemma_full_width_never_waits(before);
        let after = before.stepped();
        assert(after == start.stepped_times(count));
        assert forall|i: int| 0 <= i < count implies #[trigger] after.in_flight[i]
            == config.spec_first_port() + i by {
            if i < count - 1 {
                assert(after.in_flight[i] == before.in_flight[i]);
            }
        }
    }
}

/// One call of the coordinator by its caller.
pub enum Move {
    /// The caller asks what to do next.
    Ask,
    /// The caller offers the result of the task for this port.
    Report(u16),
}

/// The state that a scan under `config` is in after `moves`.
pub open spec fn state_after(config: ScanConfig, moves: Seq<Move>) -> ScanState
    decreases moves.len(),
{
    if moves.len() == 0 {
        ScanState::initial(config)
    } else {
        let before = state_after(config, moves.drop_last());
        match moves.last() {
            Move::Ask => before.stepped(),
            Move::Report(port) => before.recorded(port),
        }
    }
}

/// Number of results for `port` that the coordinator accepted during
/// `moves`.
pub open spec fn results_for(config: ScanConfig, moves: Seq<Move>, port: u16) -> nat
    decreases moves.len(),
{
    if moves.len() == 0 {
        0
    } else {
        let before = state_after(config, moves.drop_last());
        let earlier = results_for(config, moves.drop_last(), port);
        match moves.last() {
            Move::Report(reported) if reported == port && before.is_in_flight(port) => earlier + 1,
            _ => earlier,
        }
    }
}

/// Number of results that the coordinator accepted during `moves`.
pub open spec fn results_total(config: ScanConfig, moves: Seq<Move>) -> nat
    decreases moves.len(),
{
    if moves.len() == 0 {
        0
    } else {
        let before = state_after(config, moves.drop_last());
        let earlier = results_total(config, moves.drop_last());
        match moves.last() {
            Move::Report(reported) if before.is_in_flight(reported) => earlier + 1,
            _ => earlier,
        }
    }
}

/// Whatever the caller does, the scan stays within its slots: after any
/// moves the invariant holds, and the tasks in flight are no more than the
/// configured limit.
pub proof fn lemma_slots_never_exceed_limit(config: ScanConfig, moves: Seq<Move>)
    requires
        config.wf(),
    ensures
        state_after(config, moves).inv(),
        state_after(config, moves).config == config,
        state_after(config, moves).in_flight.len() <= config.spec_concurrency(),
    decreases moves.len(),
{
    if moves.len() > 0 {
        let before = state_after(config, moves.drop_last());
        lemma_slots_never_exceed_limit(config, moves.drop_last());
        match moves.last() {
            Move::Ask => lemma_step_keeps_inv(before),
            Move::Report(port) => lemma_record_keeps_inv(before, port),
        }
    }
}

/// A port without a result stays without one until its own result is
/// accepted.
proof fn lemma_no_result_persists(s: ScanState, port: u16)
    requires
        s.inv(),
        !s.has_result(port as int),
    ensures
        !s.stepped().has_result(port as int),
        forall|other: u16|
            !(other == port && s.is_in_flight(port)) ==> !(#[trigger] s.recorded(other)).has_result(
                port as int,
            ),
{
    if let Step::Dispatch(handed) = s.decision() {
        let t = s.stepped();
        if handed == port {
            assert(t.in_flight[s.in_flight.len() as int] == port);
        } else if s.first() <= port < s.next {
            let i = choose|i: int| 0 <= i < s.in_flight.len() && s.in_flight[i] == port;
            assert(t.in_flight[i] == port);
        }
    }
    assert forall|other: u16| !(other == port && s.is_in_flight(port)) implies !(
    #[trigger] s.recorded(other)).has_result(port as int) by {
        if s.is_in_flight(other) && s.first() <= port < s.next {
            let t = s.recorded(other);
            let at = s.in_flight.index_of(other);
            let i = choose|i: int| 0 <= i < s.in_flight.len() && s.in_flight[i] == port;
            assert(s.in_flight[at] == other);
            assert(i != at);
            if i < at {
                assert(t.in_flight[i] == port);
            } else {
                assert(t.in_flight[i - 1] == port);
            }
        }
    }
}

/// Every port yields at most one result, and has yielded it exactly when
/// the coordinator holds it as recorded: after any moves, the number of
/// results accepted for a port is 1 where the port has its result, else 0.
pub proof fn lemma_one_result_per_port(config: ScanConfig, moves: Seq<Move>, port: u16)
    requires
        config.wf(),
    ensures
        results_for(config, moves, port) == if state_after(config, moves).has_result(port as int) {
            1nat
        } else {
            0nat
        },
    decreases moves.len(),
{
    if moves.len() > 0 {
        let before = state_after(config, moves.drop_last());
        lemma_one_result_per_port(config, moves.drop_last(), port);
        lemma_slots_never_exceed_limit(config, moves.drop_last());
        match moves.last() {
            Move::Ask => {
                if before.has_result(port as int) {
                    lemma_result_is_final(before, port as int, port);
                } else {
                    lemma_no_result_persists(before, port);
                }
            },
            Move::Report(reported) => {
                if before.has_result(port as int) {
                    lemma_result_is_final(before, port as int, reported);
                    assert(!before.is_in_flight(port)) by {
                        if before.is_in_flight(port) {
                            let i = before.in_flight.index_of(port);
                            assert(before.in_flight[i] == port);
                        }
                    }
                } else if reported == port && before.is_in_flight(port) {
                    lemma_record_keeps_inv(before, port);
                } else {
                    lemma_no_result_persists(before, port);
                }
            },
        }
    }
}

/// The results that the coordinator accepted are the results it counts.
pub proof fn lemma_results_are_counted(config: ScanConfig, moves: Seq<Move>)
    requires
        config.wf(),
    ensures
        results_total(config, moves) == state_after(config, moves).completed,
    decreases moves.len(),
{
    if moves.len() > 0 {
        lemma_results_are_counted(config, moves.drop_last());
    }
}

/// A complete scan has produced one result for each port of its range:
/// once the coordinator answers `Done`, the number of results accepted is
/// the number of ports, each port of the range has yielded exactly one, and
/// no other port has yielded any.
pub proof fn lemma_complete_scan_reports_each_port_once(config: ScanConfig, moves: Seq<Move>)
    requires
        config.wf(),
        state_after(config, moves).decision() == Step::Done,
    ensures
        results_total(config, moves) == config.spec_port_count(),
        forall|port: u16|
            #[trigger] results_for(config, moves, port) == if config.covers(port as int) {
                1nat
            } else {
                0nat
            },
{
    lemma_slots_never_exceed_limit(config, moves);
    lemma_results_are_counted(config, moves);
    lemma_done_covers_range(state_after(config, moves));
    assert forall|port: u16| #[trigger]
        results_for(config, moves, port) == if config.covers(port as int) {
            1nat
        } else {
            0nat
        } by {
        lemma_one_result_per_port(config, moves, port);
    }
}

/// The coordinator of one scan.
pub struct Coordinator {
    config: ScanConfig,
    pool: SlotPool,
    next: u32,
    in_flight: Vec<u16>,
    completed: u32,
}

impl View for Coordinator {
    type V = ScanState;

    closed spec fn view(&self) -> ScanState {
        ScanState {
            config: self.config,
            next: self.next as int,
            in_flight: self.in_flight@,
            completed: self.completed as int,
        }
    }
}

/// Where `port` stands in `ports`, if it does.
fn position_of(ports: &Vec<u16>, port: u16) -> (found: Option<usize>)
    ensures
        match found {
            Some(at) => at < ports@.len() && ports@[at as int] == port,
            None => !ports@.contains(port),
        },
{
    let mut at: usize = 0;
    while at < ports.len()
        invariant
            at <= ports@.len(),
            forall|j: int| 0 <= j < at ==> ports@[j] != port,
        decreases ports@.len() - at,
    {
        if ports[at] == port {
            return Some(at);
        }
        at = at + 1;
    }
    None
}

impl Coordinator {
    /// The slot pool mirrors the tasks in flight: it has the configured
    /// number of slots, and one is outstanding for each port in flight.
    pub closed spec fn slots_agree(&self) -> bool {
        &&& self.pool.wf()
        &&& self.pool.spec_limit() == self.config.spec_concurrency()
        &&& self.pool.spec_held() == self.in_flight@.len()
    }

    /// The coordinator's invariant. Every coordinator that `new` returns
    /// satisfies it, and every method keeps it.
    pub open spec fn wf(&self) -> bool {
        self@.inv() && self.slots_agree()
    }

    /// A coordinator for a scan under `config`, with no port handed out yet.
    pub fn new(config: ScanConfig) -> (coordinator: Coordinator)
        requires
            config.wf(),
        ensures
            coordinator.wf(),
            coordinator@ == ScanState::initial(config),
    {
        let pool = SlotPool::new(config.concurrency()).unwrap();
        let coordinator = Coordinator {
            config,
            pool,
            next: config.first_port() as u32,
            in_flight: Vec::new(),
            completed: 0,
        };
        assert(coordinator@.in_flight =~= Seq::empty());
        coordinator
    }

    /// Says what to do next. While a port is left and a slot is free, the
    /// next port takes a slot and is handed out. Else the caller waits for a
    /// running task, or, where none runs, the scan is done.
    pub fn next_step(&mut self) -> (step: Step)
        requires
            old(self).wf(),
        ensures
            final(self).wf(),
            step == old(self)@.decision(),
            final(self)@ == old(self)@.stepped(),
    {
        proof {
            lemma_step_keeps_inv(self@);
        }
        if self.next <= self.config.last_port() as u32 {
            if self.pool.try_acquire() {
                let port: u16 = self.next as u16;
                self.in_flight.push(port);
                self.next = self.next + 1;
                assert(self@.in_flight =~= old(self)@.stepped().in_flight);
                return Step::Dispatch(port);
            }
        }
        if self.in_flight.len() > 0 {
            Step::Wait
        } else {
            Step::Done
        }
    }

    /// Takes the result of a finished task. Where the result's port is in
    /// flight, its slot is given back, the result is counted, and the answer
    /// is `true`: the caller passes the result on to the reporter. A result
    /// for a port that is not in flight is refused and changes nothing, so no
    /// port is ever counted twice.
    pub fn record(&mut self, result: &PortResult) -> (accepted: bool)
        requires
            old(self).wf(),
        ensures
            final(self).wf(),
            accepted == old(self)@.is_in_flight(result.spec_port()),
            final(self)@ == old(self)@.recorded(result.spec_port()),
    {
        let port = result.port();
        proof {
            lemma_record_keeps_inv(self@, port);
        }
        match position_of(&self.in_flight, port) {
            Some(at) => {
                assert(self@.in_flight.contains(port));
                assert(self@.in_flight.index_of(port) == at);
                self.in_flight.remove(at);
                self.pool.release();
                self.completed = self.completed + 1;
                assert(self@.in_flight =~= old(self)@.recorded(port).in_flight);
                true
            },
            None => false,
        }
    }

    /// Whether the scan is complete: every port handed out, no task running.
    pub fn is_done(&self) -> (done: bool)
        requires
            self.wf(),
        ensures
            done == (self@.decision() == Step::Done),
    {
        self.next > self.config.last_port() as u32 && self.in_flight.len() == 0
    }

    /// The configuration that the scan runs under.
    pub fn config(&self) -> (config: ScanConfig)
        ensures
            config == self@.config,
    {
        self.config
    }

    /// Number of tasks that hold a slot.
    pub fn running(&self) -> (count: usize)
        ensures
            count == self@.in_flight.len(),
    {
        self.in_flight.len()
    }

    /// Number of results recorded so far.
    pub fn completed(&self) -> (count: u32)
        ensures
            count == self@.completed,
    {
        self.completed
    }

    /// Number of ports that have not been handed out yet.
    pub fn remaining(&self) -> (count: u32)
        requires
            self.wf(),
        ensures
            count == self@.last() + 1 - self@.next,
    {
        self.config.last_port() as u32 + 1 - self.next
    }
}

} // verus!
