//! What holds of every run of the batching worker.

use crate::format::{batch_text, FormatStateView};
use crate::format_laws::lemma_batch_text_concat;
use crate::record::{record_views, Record};
use crate::worker::{WorkerEvent, WorkerModel};
use vstd::prelude::*;

verus! {

/// What a run has done: where the worker stands and the batches it has asked
/// to be written, in order. A step that writes nothing adds no batch.
pub struct RunModel {
    pub worker: WorkerModel,
    pub flushes: Seq<Seq<Record>>,
}

/// The worker after it has taken in `events` one by one.
pub open spec fn run(start: WorkerModel, events: Seq<WorkerEvent>) -> RunModel
    decreases events.len(),
{
    if events.len() == 0 {
        RunModel { worker: start, flushes: Seq::empty() }
    } else {
        let before = run(start, events.drop_last());
        let (worker, step) = before.worker.step(events.last());
        RunModel {
            worker,
            flushes: if step.flush.len() > 0 {
                before.flushes.push(step.flush)
            } else {
                before.flushes
            },
        }
    }
}

/// The records that `events` carry, in order.
pub open spec fn received(events: Seq<WorkerEvent>) -> Seq<Record>
    decreases events.len(),
{
    if events.len() == 0 {
        Seq::empty()
    } else {
        match events.last() {
            WorkerEvent::Received(record) => received(events.drop_last()).push(record),
            _ => received(events.drop_last()),
        }
    }
}

/// The records of `batches`, one batch after the other.
pub open spec fn joined(batches: Seq<Seq<Record>>) -> Seq<Record>
    decreases batches.len(),
{
    if batches.len() == 0 {
        Seq::empty()
    } else {
        joined(batches.drop_last()) + batches.last()
    }
}

/// Every event is the arrival of a record.
pub open spec fn only_records(events: Seq<WorkerEvent>) -> bool {
    forall|i: int| 0 <= i < events.len() ==> (#[trigger] events[i]) is Received
}

/// While the worker accumulates, whatever it writes without stopping
/// restarts the deadline timer, so that no deadline left over from an
/// earlier batch cuts the next one short.
pub proof fn lemma_flush_restarts_deadline(worker: WorkerModel, event: WorkerEvent)
    requires
        worker.phase is Accumulating,
        worker.step(event).1.flush.len() > 0,
        !worker.step(event).1.exit,
    ensures
        worker.step(event).1.reset_deadline,
{
}

/// A step keeps the worker valid.
pub proof fn lemma_step_keeps_valid(worker: WorkerModel, event: WorkerEvent)
    requires
        worker.valid(),
    ensures
        worker.step(event).0.valid(),
        worker.step(event).0.batch_size == worker.batch_size,
{
}

/// A step neither loses nor repeats a record and keeps the order: what it
/// writes, followed by what it keeps, is what the worker held followed by
/// the record that came in.
pub proof fn lemma_step_conserves(worker: WorkerModel, event: WorkerEvent)
    ensures
        worker.step(event).1.flush + worker.step(event).0.batch == worker.batch + received(
            seq![event],
        ),
{
    assert(received(seq![event].drop_last()) =~= Seq::<Record>::empty());
}

/// A run keeps the worker valid and never changes the batch size.
pub proof fn lemma_run_keeps_valid(start: WorkerModel, events: Seq<WorkerEvent>)
    requires
        start.valid(),
    ensures
        run(start, events).worker.valid(),
        run(start, events).worker.batch_size == start.batch_size,
    decreases events.len(),
{
    if events.len() > 0 {
        lemma_run_keeps_valid(start, events.drop_last());
        lemma_step_keeps_valid(run(start, events.drop_last()).worker, events.last());
    }
}

/// Order preservation and exactly-once delivery: whatever happens, the
/// records written so far followed by the records still in the batch are the
/// records the worker held at the start followed by those received, in
/// arrival order.
pub proof fn lemma_run_conserves(start: WorkerModel, events: Seq<WorkerEvent>)
    ensures
        joined(run(start, events).flushes) + run(start, events).worker.batch == start.batch
            + received(events),
    decreases events.len(),
{
    if events.len() > 0 {
        let before = run(start, events.drop_last());
        let after = run(start, events);
        let step = before.worker.step(events.last()).1;
        lemma_run_conserves(start, events.drop_last());
        lemma_step_conserves(before.worker, events.last());
        assert(joined(after.flushes) =~= joined(before.flushes) + step.flush) by {
            if step.flush.len() > 0 {
                assert(after.flushes.drop_last() =~= before.flushes);
            }
        }
        assert(joined(after.flushes) + after.worker.batch =~= (joined(before.flushes)
            + before.worker.batch) + received(seq![events.last()]));
    }
}

/// Shutdown drains fully: once a worker that started empty has stopped,
/// every record it received has been written exactly once, in arrival
/// order, and none is left behind.
pub proof fn lemma_stopped_has_written_all(batch_size: nat, events: Seq<WorkerEvent>)
    requires
        run(WorkerModel::fresh(batch_size), events).worker.phase is Stopped,
    ensures
        run(WorkerModel::fresh(batch_size), events).worker.batch.len() == 0,
        joined(run(WorkerModel::fresh(batch_size), events).flushes) == received(events),
{
    let start = WorkerModel::fresh(batch_size);
    lemma_run_keeps_valid(start, events);
    lemma_run_conserves(start, events);
}

/// No flush is empty and none exceeds the batch size (one record, where the
/// batch size is zero).
pub proof fn lemma_flush_sizes(start: WorkerModel, events: Seq<WorkerEvent>, i: int)
    requires
        start.valid(),
        0 <= i < run(start, events).flushes.len(),
    ensures
        0 < run(start, events).flushes[i].len(),
        run(start, events).flushes[i].len() <= start.batch_size || run(start, events).flushes[i].len()
            == 1,
    decreases events.len(),
{
    if events.len() > 0 {
        let before = run(start, events.drop_last());
        lemma_run_keeps_valid(start, events.drop_last());
        if i < before.flushes.len() {
            lemma_flush_sizes(start, events.drop_last(), i);
        }
    }
}

/// While fewer records than the batch size have arrived and nothing else has
/// happened, nothing is written and the batch holds them in arrival order.
pub proof fn lemma_below_batch_size_waits(batch_size: nat, events: Seq<WorkerEvent>)
    requires
        only_records(events),
        events.len() < batch_size,
    ensures
        run(WorkerModel::fresh(batch_size), events).flushes.len() == 0,
        run(WorkerModel::fresh(batch_size), events).worker == (WorkerModel {
            batch: received(events),
            ..WorkerModel::fresh(batch_size)
        }),
        received(events).len() == events.len(),
    decreases events.len(),
{
    if events.len() > 0 {
        lemma_below_batch_size_waits(batch_size, events.drop_last());
    }
}

/// Time-triggered flush: fewer records than the batch size, then the
/// deadline, give exactly one flush, which holds all of them in arrival
/// order; with no record at all, the deadline writes nothing. In both cases
/// the deadline timer starts anew.
pub proof fn lemma_deadline_flushes_all(batch_size: nat, events: Seq<WorkerEvent>)
    requires
        only_records(events),
        events.len() < batch_size,
    ensures
        run(WorkerModel::fresh(batch_size), events.push(WorkerEvent::DeadlineElapsed)).flushes
            == if events.len() > 0 {
            seq![received(events)]
        } else {
            Seq::<Seq<Record>>::empty()
        },
        run(WorkerModel::fresh(batch_size), events.push(WorkerEvent::DeadlineElapsed)).worker
            == WorkerModel::fresh(batch_size),
        run(WorkerModel::fresh(batch_size), events).worker.step(
            WorkerEvent::DeadlineElapsed,
        ).1.reset_deadline,
{
    lemma_below_batch_size_waits(batch_size, events);
    assert(events.push(WorkerEvent::DeadlineElapsed).drop_last() =~= events);
}

/// Size-triggered flush: exactly as many records as the batch size, with
/// nothing in between, give exactly one flush, which holds all of them in
/// arrival order; it comes with the last record, the deadline timer starts
/// anew, and nothing is left in the batch.
pub proof fn lemma_full_batch_flushes_once(batch_size: nat, events: Seq<WorkerEvent>)
    requires
        only_records(events),
        events.len() == batch_size,
        batch_size > 0,
    ensures
        run(WorkerModel::fresh(batch_size), events.drop_last()).flushes.len() == 0,
        run(WorkerModel::fresh(batch_size), events).flushes == seq![received(events)],
        received(events).len() == batch_size,
        run(WorkerModel::fresh(batch_size), events).worker == WorkerModel::fresh(batch_size),
        run(WorkerModel::fresh(batch_size), events.drop_last()).worker.step(
            events.last(),
        ).1.reset_deadline,
{
    lemma_below_batch_size_waits(batch_size, events.drop_last());
}

/// What a run has put into the sink: the text of its flushes, one after
/// the other.
pub open spec fn sink_text(flushes: Seq<Seq<Record>>, state: FormatStateView, colored: bool) -> Seq<
    char,
>
    decreases flushes.len(),
{
    if flushes.len() == 0 {
        Seq::empty()
    } else {
        sink_text(flushes.drop_last(), state, colored) + batch_text(
            record_views(flushes.last()),
            state,
            colored,
        )
    }
}

/// How the records are cut into batches does not show in the sink: the text
/// of the flushes is the text of all their records in one batch.
pub proof fn lemma_sink_text_ignores_batching(
    flushes: Seq<Seq<Record>>,
    state: FormatStateView,
    colored: bool,
)
    ensures
        sink_text(flushes, state, colored) == batch_text(
            record_views(joined(flushes)),
            state,
            colored,
        ),
    decreases flushes.len(),
{
    if flushes.len() > 0 {
        lemma_sink_text_ignores_batching(flushes.drop_last(), state, colored);
        let front = joined(flushes.drop_last());
        let last = flushes.last();
        assert(record_views(front + last) =~= record_views(front) + record_views(last));
        lemma_batch_text_concat(record_views(front), record_views(last), state, colored);
    }
}

/// From the first record to the sink: once a worker that started empty has
/// stopped, the sink holds the line of every record it received, each once,
/// in arrival order, and nothing else.
pub proof fn lemma_stopped_sink_holds_every_line(
    batch_size: nat,
    events: Seq<WorkerEvent>,
    state: FormatStateView,
    colored: bool,
)
    requires
        run(WorkerModel::fresh(batch_size), events).worker.phase is Stopped,
    ensures
        sink_text(run(WorkerModel::fresh(batch_size), events).flushes, state, colored)
            == batch_text(record_views(received(events)), state, colored),
{
    lemma_stopped_has_written_all(batch_size, events);
    lemma_sink_text_ignores_batching(
        run(WorkerModel::fresh(batch_size), events).flushes,
        state,
        colored,
    );
}

} // verus!
