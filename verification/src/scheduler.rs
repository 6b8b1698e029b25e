//! The flush scheduler: one open batch, one clock, and the decision when the
//! batch is emitted.
//!
//! The scheduler is a transition system. The surrounding loop waits for the
//! next event, hands it to [`FlushScheduler::step`] together with the current
//! reading of a monotonic clock, and performs the action that comes back.

use vstd::prelude::*;
use crate::error::ErrorKind;
use crate::telemetry::{records_of, IoTMessage, Record};

verus! {

/// Records per batch at which a flush is due, unless configured otherwise.
pub const DEFAULT_MAX_BATCH_SIZE: usize = 1000;

/// Nanoseconds since the last hand-over at which a flush is due, unless
/// configured otherwise: one second.
pub const DEFAULT_MAX_DELAY_NS: u64 = 1_000_000_000;

/// Nanoseconds the loop waits for a message before it raises a tick: a tenth
/// of a second.
pub const TICK_INTERVAL_NS: u64 = 100_000_000;

/// Nanoseconds the loop pauses after a connection failure: one second.
pub const RECONNECT_BACKOFF_NS: u64 = 1_000_000_000;

/// The two thresholds of the flush predicate.
#[derive(Debug, Clone, Copy, PartialEq, Eq, Structural)]
pub struct BatchConfig {
    pub max_batch_size: usize,
    pub max_delay_ns: u64,
}

impl Default for BatchConfig {
    fn default() -> (c: BatchConfig)
        ensures
            c.max_batch_size == DEFAULT_MAX_BATCH_SIZE,
            c.max_delay_ns == DEFAULT_MAX_DELAY_NS,
    {
        BatchConfig { max_batch_size: DEFAULT_MAX_BATCH_SIZE, max_delay_ns: DEFAULT_MAX_DELAY_NS }
    }
}

/// The state of the loop as a whole. There is no terminal state.
#[derive(Debug, Clone, Copy, PartialEq, Eq, Structural)]
pub enum Phase {
    Running,
    ReconnectBackoff,
}

/// How a bulk write ended.
#[derive(Debug, Clone, Copy, PartialEq, Eq, Structural)]
pub enum WriteOutcome {
    Written,
    Failed,
}

/// Which threshold made a flush due. Where both are reached, the size is
/// named.
#[derive(Debug, Clone, Copy, PartialEq, Eq, Structural)]
pub enum FlushReason {
    Size,
    Deadline,
}

/// What the loop hands to the scheduler.
#[derive(Debug, Clone, PartialEq, Eq)]
pub enum Event {
    /// A payload arrived and was decoded.
    Record(IoTMessage),
    /// A payload arrived and could not be decoded.
    Malformed,
    /// The transport reported something that carries no payload.
    Other,
    /// The transport reported a connection failure.
    ConnectionError,
    /// The tick interval passed without a message.
    Tick,
    /// The pause after a connection failure is over.
    BackoffElapsed,
    /// The bulk write of the batch last emitted has returned.
    Persisted(WriteOutcome),
}

/// What the scheduler asks of the loop.
#[derive(Debug, Clone, PartialEq, Eq)]
pub enum Action {
    /// Wait for the next message, at most one tick interval.
    Await,
    /// Pause, then report `BackoffElapsed`.
    Backoff { pause_ns: u64 },
    /// Write these records in one bulk write, then report `Persisted`.
    Persist { records: Vec<IoTMessage>, reason: FlushReason },
}

/// The result of one step: the action to perform and the fault met, if any.
#[derive(Debug, Clone, PartialEq, Eq)]
pub struct Step {
    pub action: Action,
    pub fault: Option<ErrorKind>,
}

/// An event as a mathematical value.
pub enum EventView {
    Record(Record),
    Malformed,
    Other,
    ConnectionError,
    Tick,
    BackoffElapsed,
    Persisted(WriteOutcome),
}

/// An action as a mathematical value.
pub enum ActionView {
    Await,
    Backoff { pause_ns: u64 },
    Persist { records: Seq<Record>, reason: FlushReason },
}

impl View for Event {
    type V = EventView;

    open spec fn view(&self) -> EventView {
        match *self {
            Event::Record(m) => EventView::Record(m@),
            Event::Malformed => EventView::Malformed,
            Event::Other => EventView::Other,
            Event::ConnectionError => EventView::ConnectionError,
            Event::Tick => EventView::Tick,
            Event::BackoffElapsed => EventView::BackoffElapsed,
            Event::Persisted(outcome) => EventView::Persisted(outcome),
        }
    }
}

impl View for Action {
    type V = ActionView;

    open spec fn view(&self) -> ActionView {
        match *self {
            Action::Await => ActionView::Await,
            Action::Backoff { pause_ns } => ActionView::Backoff { pause_ns },
            Action::Persist { records, reason } => ActionView::Persist {
                records: records_of(records@),
                reason,
            },
        }
    }
}

/// Time passed on a monotonic clock between two readings. A reading that
/// lies before the earlier one counts as no time passed.
pub open spec fn elapsed_ns(last: u64, now: u64) -> int {
    if now >= last {
        now - last
    } else {
        0
    }
}

/// The scheduler as a mathematical value.
pub struct SchedulerState {
    pub config: BatchConfig,
    pub batch: Seq<Record>,
    pub last_flush_ns: u64,
    pub phase: Phase,
}

/// One transition of the scheduler: the state it leads to, the action it
/// asks for and the fault it reports.
pub struct Transition {
    pub state: SchedulerState,
    pub action: ActionView,
    pub fault: Option<ErrorKind>,
}

impl SchedulerState {
    /// The state at start: nothing accumulated, the clock started at `now`.
    pub open spec fn initial(config: BatchConfig, now: u64) -> SchedulerState {
        SchedulerState { config, batch: Seq::empty(), last_flush_ns: now, phase: Phase::Running }
    }

    /// The flush predicate: the batch is full, or the delay has passed.
    pub open spec fn flush_due(self, now: u64) -> bool {
        self.batch.len() >= self.config.max_batch_size || elapsed_ns(self.last_flush_ns, now)
            >= self.config.max_delay_ns
    }

    /// The threshold that a due flush is put down to.
    pub open spec fn flush_reason(self) -> FlushReason {
        if self.batch.len() >= self.config.max_batch_size {
            FlushReason::Size
        } else {
            FlushReason::Deadline
        }
    }

    /// The state with one more record at the end of the open batch.
    pub open spec fn append(self, record: Record) -> SchedulerState {
        SchedulerState { batch: self.batch.push(record), ..self }
    }

    /// The state with the clock reset to `now`.
    pub open spec fn restart_clock(self, now: u64) -> SchedulerState {
        SchedulerState { last_flush_ns: now, ..self }
    }

    /// The state in the given phase.
    pub open spec fn enter(self, phase: Phase) -> SchedulerState {
        SchedulerState { phase, ..self }
    }

    /// The flush decision at the end of an iteration. Where a flush is due
    /// and the batch is not empty, the batch is emitted and replaced by an
    /// empty one, and the clock is reset. An empty batch is never emitted and
    /// leaves the clock as it is: the clock counts from the last hand-over,
    /// or from the start.
    pub open spec fn evaluate(self, now: u64, fault: Option<ErrorKind>) -> Transition {
        if !self.flush_due(now) || self.batch.len() == 0 {
            Transition { state: self, action: ActionView::Await, fault }
        } else {
            Transition {
                state: SchedulerState { batch: Seq::empty(), last_flush_ns: now, ..self },
                action: ActionView::Persist { records: self.batch, reason: self.flush_reason() },
                fault,
            }
        }
    }

    /// The transition on `event` at clock reading `now`.
    pub open spec fn step(self, event: EventView, now: u64) -> Transition {
        match event {
            EventView::Record(record) => self.append(record).evaluate(now, None),
            EventView::Malformed => self.evaluate(now, Some(ErrorKind::DecodeError)),
            EventView::Other => self.evaluate(now, None),
            EventView::Tick => self.evaluate(now, None),
            EventView::ConnectionError => Transition {
                state: self.enter(Phase::ReconnectBackoff),
                action: ActionView::Backoff { pause_ns: RECONNECT_BACKOFF_NS },
                fault: Some(ErrorKind::TransportError),
            },
            EventView::BackoffElapsed => self.enter(Phase::Running).evaluate(now, None),
            EventView::Persisted(outcome) => Transition {
                state: self.restart_clock(now),
                action: ActionView::Await,
                fault: match outcome {
                    WriteOutcome::Written => None,
                    WriteOutcome::Failed => Some(ErrorKind::PersistenceError),
                },
            },
        }
    }
}

/// The open batch, the clock of the last flush, and the phase of the loop.
/// Owned by the one loop that drives it.
#[derive(Debug)]
pub struct FlushScheduler {
    config: BatchConfig,
    batch: Vec<IoTMessage>,
    last_flush_ns: u64,
    phase: Phase,
}

impl View for FlushScheduler {
    type V = SchedulerState;

    closed spec fn view(&self) -> SchedulerState {
        SchedulerState {
            config: self.config,
            batch: records_of(self.batch@),
            last_flush_ns: self.last_flush_ns,
            phase: self.phase,
        }
    }
}

impl FlushScheduler {
    /// A scheduler with an empty batch whose clock starts at `now_ns`.
    pub fn new(config: BatchConfig, now_ns: u64) -> (s: FlushScheduler)
        ensures
            s@ == SchedulerState::initial(config, now_ns),
    {
        let s = FlushScheduler {
            config,
            batch: Vec::new(),
            last_flush_ns: now_ns,
            phase: Phase::Running,
        };
        assert(s@.batch =~= Seq::empty());
        s
    }

    /// The thresholds this scheduler was made with.
    pub fn config(&self) -> (c: BatchConfig)
        ensures
            c == self@.config,
    {
        self.config
    }

    /// The number of records in the open batch.
    pub fn pending(&self) -> (n: usize)
        ensures
            n == self@.batch.len(),
    {
        self.batch.len()
    }

    /// The phase of the loop.
    pub fn phase(&self) -> (p: Phase)
        ensures
            p == self@.phase,
    {
        self.phase
    }

    /// The clock reading from which the delay counts: that of the last
    /// hand-over of a batch or of the return of its write, or that of the
    /// start.
    pub fn last_flush_ns(&self) -> (t: u64)
        ensures
            t == self@.last_flush_ns,
    {
        self.last_flush_ns
    }

    /// Whether the flush predicate holds at clock reading `now_ns`.
    pub fn flush_due(&self, now_ns: u64) -> (due: bool)
        ensures
            due == self@.flush_due(now_ns),
    {
        let elapsed: u64 = if now_ns >= self.last_flush_ns {
            now_ns - self.last_flush_ns
        } else {
            0
        };
        self.batch.len() >= self.config.max_batch_size || elapsed >= self.config.max_delay_ns
    }

    fn evaluate(&mut self, now_ns: u64) -> (action: Action)
        ensures
            final(self)@ == old(self)@.evaluate(now_ns, None).state,
            action@ == old(self)@.evaluate(now_ns, None).action,
    {
        if !self.flush_due(now_ns) || self.batch.len() == 0 {
            return Action::Await;
        }
        self.last_flush_ns = now_ns;
        let reason = if self.batch.len() >= self.config.max_batch_size {
            FlushReason::Size
        } else {
            FlushReason::Deadline
        };
        let mut records: Vec<IoTMessage> = Vec::new();
        std::mem::swap(&mut records, &mut self.batch);
        assert(self@.batch =~= Seq::empty());
        Action::Persist { records, reason }
    }

    /// Takes one event at clock reading `now_ns` and says what to do next.
    ///
    /// A record joins the open batch; a payload that could not be decoded
    /// adds nothing; a connection failure asks for the pause. After every
    /// event but a connection failure and the return of a write, the flush
    /// predicate is evaluated: a batch that is due and not empty is emitted
    /// whole and the clock reset, while an empty batch leaves the clock as
    /// it is. The return of a write resets the clock, whatever the outcome.
    pub fn step(&mut self, event: Event, now_ns: u64) -> (out: Step)
        ensures
            final(self)@ == old(self)@.step(event@, now_ns).state,
            out.action@ == old(self)@.step(event@, now_ns).action,
            out.fault == old(self)@.step(event@, now_ns).fault,
    {
        match event {
            Event::Record(msg) => {
                self.batch.push(msg);
                assert(self@.batch =~= old(self)@.batch.push(msg@));
                let action = self.evaluate(now_ns);
                Step { action, fault: None }
            },
            Event::Malformed => {
                let action = self.evaluate(now_ns);
                Step { action, fault: Some(ErrorKind::DecodeError) }
            },
            Event::Other => {
                let action = self.evaluate(now_ns);
                Step { action, fault: None }
            },
            Event::Tick => {
                let action = self.evaluate(now_ns);
                Step { action, fault: None }
            },
            Event::ConnectionError => {
                self.phase = Phase::ReconnectBackoff;
                Step {
                    action: Action::Backoff { pause_ns: RECONNECT_BACKOFF_NS },
                    fault: Some(ErrorKind::TransportError),
                }
            },
            Event::BackoffElapsed => {
                self.phase = Phase::Running;
                let action = self.evaluate(now_ns);
                Step { action, fault: None }
            },
            Event::Persisted(outcome) => {
                self.last_flush_ns = now_ns;
                let fault = match outcome {
                    WriteOutcome::Written => None,
                    WriteOutcome::Failed => Some(ErrorKind::PersistenceError),
                };
                Step { action: Action::Await, fault }
            },
        }
    }
}

} // verus!
