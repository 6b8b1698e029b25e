//! What holds of every run of the scheduler, proved over its transitions.

use vstd::prelude::*;
use crate::error::ErrorKind;
use crate::scheduler::{
    elapsed_ns, ActionView, EventView, FlushReason, SchedulerState, WriteOutcome,
};
use crate::telemetry::Record;

verus! {

/// One event together with the clock reading at which it is taken.
pub struct Input {
    pub event: EventView,
    pub now: u64,
}

/// The state after the scheduler has taken `inputs` in order, starting in `s`.
pub open spec fn run(s: SchedulerState, inputs: Seq<Input>) -> SchedulerState
    decreases inputs.len(),
{
    if inputs.len() == 0 {
        s
    } else {
        run(s, inputs.drop_last()).step(inputs.last().event, inputs.last().now).state
    }
}

/// The action that the step on `inputs[i]` asks for in the run from `s`.
pub open spec fn action_at(s: SchedulerState, inputs: Seq<Input>, i: int) -> ActionView
    recommends
        0 <= i < inputs.len(),
{
    run(s, inputs.take(i)).step(inputs[i].event, inputs[i].now).action
}

/// The inputs of `records` arriving one after another at one clock reading.
pub open spec fn burst(records: Seq<Record>, now: u64) -> Seq<Input> {
    Seq::new(records.len(), |i: int| Input { event: EventView::Record(records[i]), now })
}

/// An emitted batch is never empty, holds everything accumulated up to and
/// including the event that emitted it, and leaves an empty batch behind.
pub proof fn emitted_batch_is_whole(s: SchedulerState, event: EventView, now: u64)
    ensures
        s.step(event, now).action matches ActionView::Persist { records, reason } ==> {
            &&& records.len() > 0
            &&& records == (match event {
                EventView::Record(r) => s.batch.push(r),
                _ => s.batch,
            })
            &&& s.step(event, now).state.batch == Seq::<Record>::empty()
            &&& s.step(event, now).state.last_flush_ns == now
        },
{
}

/// The thresholds a run starts with are in force at every point of it.
pub proof fn run_keeps_config(s: SchedulerState, inputs: Seq<Input>)
    ensures
        run(s, inputs).config == s.config,
    decreases inputs.len(),
{
    if inputs.len() > 0 {
        run_keeps_config(s, inputs.drop_last());
    }
}

/// At every point of every run, a step that takes a record emits the batch
/// exactly when, with that record in it, the batch has reached the size
/// threshold or the delay has passed since the last hand-over, or since the
/// start where there was none.
pub proof fn flush_exactly_when_due(s: SchedulerState, inputs: Seq<Input>, i: int)
    requires
        0 <= i < inputs.len(),
        inputs[i].event is Record,
    ensures
        ({
            let before = run(s, inputs.take(i));
            (action_at(s, inputs, i) is Persist) <==> (before.batch.len() + 1
                >= s.config.max_batch_size || elapsed_ns(before.last_flush_ns, inputs[i].now)
                >= s.config.max_delay_ns)
        }),
{
    run_keeps_config(s, inputs.take(i));
}

/// A step that takes no record emits the batch exactly when the batch is not
/// empty and the flush predicate holds; the return of a write and a
/// connection failure never emit.
pub proof fn flush_without_record(s: SchedulerState, event: EventView, now: u64)
    requires
        !(event is Record),
    ensures
        (s.step(event, now).action is Persist) <==> (s.batch.len() > 0 && s.flush_due(now) && !(
        event is ConnectionError) && !(event is Persisted)),
{
}

/// While no record arrives, an empty batch stays empty and nothing is
/// emitted, however long the silence lasts.
pub proof fn silence_never_flushes(s: SchedulerState, inputs: Seq<Input>)
    requires
        s.batch.len() == 0,
        forall|i: int| 0 <= i < inputs.len() ==> !(#[trigger] inputs[i].event is Record),
    ensures
        run(s, inputs).batch.len() == 0,
        forall|i: int| 0 <= i < inputs.len() ==> !(#[trigger] action_at(s, inputs, i) is Persist),
    decreases inputs.len(),
{
    if inputs.len() > 0 {
        let front = inputs.drop_last();
        let n = inputs.len() - 1;
        silence_never_flushes(s, front);
        assert(inputs.take(n) =~= front);
        assert forall|i: int| 0 <= i < inputs.len() implies !(#[trigger] action_at(s, inputs, i)
            is Persist) by {
            if i < n {
                assert(inputs.take(i) =~= front.take(i));
                assert(action_at(s, inputs, i) == action_at(s, front, i));
            } else {
                assert(!(inputs[n].event is Record));
            }
        }
        assert(!(inputs[n].event is Record));
    }
}

/// Silence does not move the clock: while no record arrives and no write
/// returns, an empty batch stays empty and the delay keeps counting from
/// where it did, however often the predicate is evaluated meanwhile.
pub proof fn silence_keeps_clock(s: SchedulerState, inputs: Seq<Input>)
    requires
        s.batch.len() == 0,
        forall|i: int|
            0 <= i < inputs.len() ==> !(#[trigger] inputs[i].event is Record) && !(
            inputs[i].event is Persisted),
    ensures
        run(s, inputs).batch == s.batch,
        run(s, inputs).last_flush_ns == s.last_flush_ns,
        run(s, inputs).config == s.config,
    decreases inputs.len(),
{
    if inputs.len() > 0 {
        let n = inputs.len() - 1;
        silence_keeps_clock(s, inputs.drop_last());
        assert(!(inputs[n].event is Record) && !(inputs[n].event is Persisted));
        assert(run(s, inputs.drop_last()).batch =~= Seq::<Record>::empty());
    }
}

/// A record that arrives after a silence longer than the delay is handed
/// over on arrival, alone: it does not wait for a further delay to pass.
pub proof fn record_after_long_silence_leaves_on_arrival(
    s: SchedulerState,
    inputs: Seq<Input>,
    record: Record,
    now: u64,
)
    requires
        s.batch.len() == 0,
        forall|i: int|
            0 <= i < inputs.len() ==> !(#[trigger] inputs[i].event is Record) && !(
            inputs[i].event is Persisted),
        elapsed_ns(s.last_flush_ns, now) >= s.config.max_delay_ns,
    ensures
        run(s, inputs).step(EventView::Record(record), now).action matches ActionView::Persist {
            records,
            reason,
        } && records == seq![record],
{
    silence_keeps_clock(s, inputs);
    let quiet = run(s, inputs);
    assert(quiet.batch =~= Seq::<Record>::empty());
    assert(quiet.append(record).batch =~= seq![record]);
}

/// The state after the first `k` records of a burst that neither fills the
/// batch nor outlasts the delay: the records are in the batch, in order, and
/// nothing else has changed.
proof fn burst_accumulates(s: SchedulerState, records: Seq<Record>, now: u64, k: int)
    requires
        s.batch.len() == 0,
        0 <= k <= records.len(),
        k < s.config.max_batch_size || k == 0,
        elapsed_ns(s.last_flush_ns, now) < s.config.max_delay_ns,
    ensures
        run(s, burst(records, now).take(k)) == (SchedulerState { batch: records.take(k), ..s }),
    decreases k,
{
    let inputs = burst(records, now).take(k);
    if k == 0 {
        assert(records.take(0) =~= s.batch);
    } else {
        burst_accumulates(s, records, now, k - 1);
        assert(inputs.drop_last() =~= burst(records, now).take(k - 1));
        assert(records.take(k - 1).push(records[k - 1]) =~= records.take(k));
    }
}

/// A batch's worth of records arriving at one instant, before the delay has
/// passed, is emitted exactly once: nothing leaves before the last record,
/// the last record emits all of them in order on account of the size, and
/// the next batch starts empty.
pub proof fn full_batch_flushes_once(s: SchedulerState, records: Seq<Record>, now: u64)
    requires
        s.batch.len() == 0,
        records.len() == s.config.max_batch_size,
        records.len() >= 1,
        elapsed_ns(s.last_flush_ns, now) < s.config.max_delay_ns,
    ensures
        forall|i: int|
            0 <= i < records.len() - 1 ==> #[trigger] action_at(s, burst(records, now), i)
                == ActionView::Await,
        action_at(s, burst(records, now), records.len() - 1) == (ActionView::Persist {
            records,
            reason: FlushReason::Size,
        }),
        run(s, burst(records, now)).batch == Seq::<Record>::empty(),
{
    let inputs = burst(records, now);
    let n = records.len() as int;
    assert forall|i: int| 0 <= i < n - 1 implies #[trigger] action_at(s, inputs, i)
        == ActionView::Await by {
        burst_accumulates(s, records, now, i);
    }
    burst_accumulates(s, records, now, n - 1);
    assert(inputs.drop_last() =~= inputs.take(n - 1));
    assert(records.take(n - 1).push(records[n - 1]) =~= records);
}

/// A payload that cannot be decoded contributes no record: the scheduler
/// moves as it would on a tick at the same instant, and reports the fault.
/// Unless a batch was waiting that is due anyway, nothing changes and nothing
/// is emitted.
pub proof fn malformed_adds_nothing(s: SchedulerState, now: u64)
    ensures
        s.step(EventView::Malformed, now).state == s.step(EventView::Tick, now).state,
        s.step(EventView::Malformed, now).action == s.step(EventView::Tick, now).action,
        s.step(EventView::Malformed, now).fault == Some(ErrorKind::DecodeError),
        !s.flush_due(now) || s.batch.len() == 0 ==> s.step(EventView::Malformed, now).state == s
            && s.step(EventView::Malformed, now).action == ActionView::Await,
{
}

/// One record short of a full batch, a payload that cannot be decoded emits
/// nothing, and the scheduler goes on: the record that follows completes the
/// batch, which is emitted whole.
pub proof fn short_batch_survives_malformed(
    s: SchedulerState,
    records: Seq<Record>,
    next: Record,
    now: u64,
)
    requires
        s.batch.len() == 0,
        records.len() + 1 == s.config.max_batch_size,
        elapsed_ns(s.last_flush_ns, now) < s.config.max_delay_ns,
    ensures
        ({
            let short = run(s, burst(records, now));
            let after = short.step(EventView::Malformed, now);
            &&& after.action == ActionView::Await
            &&& after.state == short
            &&& short.batch == records
            &&& after.state.step(EventView::Record(next), now).action == (ActionView::Persist {
                records: records.push(next),
                reason: FlushReason::Size,
            })
        }),
{
    let n = records.len() as int;
    burst_accumulates(s, records, now, n);
    assert(burst(records, now).take(n) =~= burst(records, now));
    assert(records.take(n) =~= records);
}

/// A failed write leaves the scheduler exactly where a successful one would:
/// the clock is reset, the open batch and the phase are untouched, and the
/// loop is asked to wait for the next message. Only the reported fault
/// differs, so every later step is the same.
pub proof fn write_failure_leaves_no_trace(s: SchedulerState, now: u64)
    ensures
        ({
            let failed = s.step(EventView::Persisted(WriteOutcome::Failed), now);
            let written = s.step(EventView::Persisted(WriteOutcome::Written), now);
            &&& failed.state == written.state
            &&& failed.action == ActionView::Await
            &&& written.action == ActionView::Await
            &&& failed.fault == Some(ErrorKind::PersistenceError)
            &&& written.fault == None::<ErrorKind>
            &&& failed.state == s.restart_clock(now)
        }),
{
}

/// The batch that follows a failed write is taken and emitted like any other:
/// after the write of an emitted batch has failed, a batch's worth of records
/// arriving at one instant, before the delay has passed again, leaves whole
/// with the last of them.
pub proof fn batch_after_failed_write_flushes(
    s: SchedulerState,
    event: EventView,
    now: u64,
    returned: u64,
    records: Seq<Record>,
    at: u64,
)
    requires
        s.step(event, now).action is Persist,
        records.len() == s.config.max_batch_size,
        records.len() >= 1,
        elapsed_ns(returned, at) < s.config.max_delay_ns,
    ensures
        ({
            let after = s.step(event, now).state.step(
                EventView::Persisted(WriteOutcome::Failed),
                returned,
            ).state;
            &&& after.batch == Seq::<Record>::empty()
            &&& forall|i: int|
                0 <= i < records.len() - 1 ==> #[trigger] action_at(after, burst(records, at), i)
                    == ActionView::Await
            &&& action_at(after, burst(records, at), records.len() - 1) == (ActionView::Persist {
                records,
                reason: FlushReason::Size,
            })
        }),
{
    emitted_batch_is_whole(s, event, now);
    let after = s.step(event, now).state.step(
        EventView::Persisted(WriteOutcome::Failed),
        returned,
    ).state;
    full_batch_flushes_once(after, records, at);
}

/// A batch that has waited out the delay leaves on the next event that is
/// neither a connection failure nor the return of a write, a tick included:
/// no record waits for another record to arrive.
pub proof fn overdue_batch_leaves_on_any_event(s: SchedulerState, event: EventView, now: u64)
    requires
        s.batch.len() > 0,
        elapsed_ns(s.last_flush_ns, now) >= s.config.max_delay_ns,
        !(event is ConnectionError),
        !(event is Persisted),
    ensures
        s.step(event, now).action is Persist,
{
}

/// The size threshold bounds the open batch: as long as the threshold is not
/// zero, a batch that starts below it is below it after every step of every
/// run, and no emitted batch is larger than the threshold.
pub proof fn batch_stays_below_threshold(s: SchedulerState, inputs: Seq<Input>)
    requires
        s.config.max_batch_size >= 1,
        s.batch.len() < s.config.max_batch_size,
    ensures
        run(s, inputs).batch.len() < s.config.max_batch_size,
        forall|i: int|
            0 <= i < inputs.len() ==> (#[trigger] action_at(s, inputs, i) matches ActionView::Persist {
                records,
                reason,
            } ==> records.len() <= s.config.max_batch_size),
    decreases inputs.len(),
{
    if inputs.len() > 0 {
        let front = inputs.drop_last();
        let n = inputs.len() - 1;
        batch_stays_below_threshold(s, front);
        run_keeps_config(s, front);
        assert(inputs.take(n) =~= front);
        assert forall|i: int| 0 <= i < inputs.len() implies (#[trigger] action_at(s, inputs, i)
            matches ActionView::Persist { records, reason } ==> records.len()
            <= s.config.max_batch_size) by {
            if i < n {
                assert(inputs.take(i) =~= front.take(i));
                assert(action_at(s, inputs, i) == action_at(s, front, i));
            }
        }
    }
}

/// A connection failure costs no record: the open batch and the clock are
/// kept through the pause, and the end of the pause brings the loop back to
/// running.
pub proof fn backoff_keeps_batch(s: SchedulerState, now: u64, later: u64)
    ensures
        ({
            let paused = s.step(EventView::ConnectionError, now);
            &&& paused.action == (ActionView::Backoff {
                pause_ns: crate::scheduler::RECONNECT_BACKOFF_NS,
            })
            &&& paused.fault == Some(ErrorKind::TransportError)
            &&& paused.state == s.enter(crate::scheduler::Phase::ReconnectBackoff)
            &&& paused.state.step(EventView::BackoffElapsed, later) == s.enter(
                crate::scheduler::Phase::Running,
            ).evaluate(later, None)
        }),
{
}

} // verus!
