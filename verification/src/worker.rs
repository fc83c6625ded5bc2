//! The batching state machine of the background worker.
//!
//! The worker waits for a record, for the deadline and for the shutdown
//! signal. Whoever runs it hands each thing that happened to [`Worker::step`]
//! and carries out what the step asks for: write the flushed batch to the
//! sink, restart the deadline timer, leave the loop. Once shutdown is
//! signalled there is nothing to wait for any more, and [`Worker::poll`]
//! fetches the events itself.

use crate::channel::{try_recv, RecvOutcome};
use crate::record::Record;
use crossbeam_channel::Receiver;
use vstd::prelude::*;

verus! {

/// Where the worker stands.
#[derive(Clone, Copy, Debug, PartialEq, Eq, Structural)]
pub enum Phase {
    /// Normal operation: records are gathered into the batch.
    Accumulating,
    /// Shutdown was signalled: the channel is being emptied without waiting.
    Draining,
    /// The worker has flushed what it held and is done.
    Stopped,
}

/// What happened while the worker was waiting.
#[derive(Debug)]
pub enum WorkerEvent {
    /// A record came out of the channel.
    Received(Record),
    /// The deadline of the current batch passed.
    DeadlineElapsed,
    /// The shutdown signal arrived.
    ShutdownSignal,
    /// Every sender is gone and the channel is empty.
    Disconnected,
    /// A poll of the channel found nothing.
    Empty,
}

/// The event that a poll of the channel stands for.
pub open spec fn polled_event(outcome: RecvOutcome) -> WorkerEvent {
    match outcome {
        RecvOutcome::Received(record) => WorkerEvent::Received(record),
        RecvOutcome::Empty => WorkerEvent::Empty,
        RecvOutcome::Disconnected => WorkerEvent::Disconnected,
    }
}

/// The event that a poll of the channel stands for.
pub fn event_of(outcome: RecvOutcome) -> (event: WorkerEvent)
    ensures
        event == polled_event(outcome),
{
    match outcome {
        RecvOutcome::Received(record) => WorkerEvent::Received(record),
        RecvOutcome::Empty => WorkerEvent::Empty,
        RecvOutcome::Disconnected => WorkerEvent::Disconnected,
    }
}

/// What the worker is made of.
pub struct WorkerModel {
    pub batch: Seq<Record>,
    pub batch_size: nat,
    pub phase: Phase,
}

/// What a step asks for.
pub struct StepModel {
    /// The records to write now, in this order; empty where nothing is to be
    /// written.
    pub flush: Seq<Record>,
    /// Whether the deadline timer starts anew.
    pub reset_deadline: bool,
    /// Whether the worker is done.
    pub exit: bool,
}

/// A step that asks for nothing.
pub open spec fn idle_step(exit: bool) -> StepModel {
    StepModel { flush: Seq::empty(), reset_deadline: false, exit }
}

impl WorkerModel {
    /// A worker that holds nothing yet.
    pub open spec fn fresh(batch_size: nat) -> WorkerModel {
        WorkerModel { batch: Seq::empty(), batch_size, phase: Phase::Accumulating }
    }

    /// Between two steps the batch is below the batch size (or empty, where
    /// the batch size is zero), and a stopped worker holds nothing.
    pub open spec fn valid(self) -> bool {
        &&& self.batch.len() == 0 || self.batch.len() < self.batch_size
        &&& self.phase is Stopped ==> self.batch.len() == 0
    }

    /// The worker takes a record: the batch is flushed where it has reached
    /// the batch size.
    pub open spec fn take(self, record: Record, reset_deadline: bool) -> (WorkerModel, StepModel) {
        let batch = self.batch.push(record);
        if batch.len() >= self.batch_size {
            (
                WorkerModel { batch: Seq::empty(), ..self },
                StepModel { flush: batch, reset_deadline, exit: false },
            )
        } else {
            (WorkerModel { batch, ..self }, idle_step(false))
        }
    }

    /// The worker flushes what it holds and stops.
    pub open spec fn finish(self) -> (WorkerModel, StepModel) {
        (
            WorkerModel { batch: Seq::empty(), phase: Phase::Stopped, ..self },
            StepModel { flush: self.batch, reset_deadline: false, exit: true },
        )
    }

    /// The transition function of the worker.
    pub open spec fn step(self, event: WorkerEvent) -> (WorkerModel, StepModel) {
        match self.phase {
            Phase::Accumulating => match event {
                WorkerEvent::Received(record) => self.take(record, true),
                WorkerEvent::DeadlineElapsed => (
                    WorkerModel { batch: Seq::empty(), ..self },
                    StepModel { flush: self.batch, reset_deadline: true, exit: false },
                ),
                WorkerEvent::ShutdownSignal => (
                    WorkerModel { phase: Phase::Draining, ..self },
                    idle_step(false),
                ),
                WorkerEvent::Disconnected => self.finish(),
                WorkerEvent::Empty => (self, idle_step(false)),
            },
            Phase::Draining => match event {
                WorkerEvent::Received(record) => self.take(record, false),
                WorkerEvent::Disconnected => self.finish(),
                WorkerEvent::Empty => self.finish(),
                WorkerEvent::DeadlineElapsed => (self, idle_step(false)),
                WorkerEvent::ShutdownSignal => (self, idle_step(false)),
            },
            Phase::Stopped => match event {
                WorkerEvent::Received(record) => (
                    WorkerModel { batch: Seq::empty(), ..self },
                    StepModel { flush: self.batch.push(record), reset_deadline: false, exit: true },
                ),
                _ => (self, idle_step(true)),
            },
        }
    }
}

/// The batch buffer and the phase of the background worker.
#[derive(Debug)]
pub struct Worker {
    batch: Vec<Record>,
    batch_size: usize,
    phase: Phase,
}

/// What [`Worker::step`] asks for.
#[derive(Debug)]
pub struct WorkerStep {
    /// The records to write now, in this order; empty where nothing is to be
    /// written.
    pub flush: Vec<Record>,
    /// Whether the deadline timer starts anew.
    pub reset_deadline: bool,
    /// Whether the worker is done.
    pub exit: bool,
}

impl View for Worker {
    type V = WorkerModel;

    closed spec fn view(&self) -> WorkerModel {
        WorkerModel { batch: self.batch@, batch_size: self.batch_size as nat, phase: self.phase }
    }
}

impl View for WorkerStep {
    type V = StepModel;

    open spec fn view(&self) -> StepModel {
        StepModel { flush: self.flush@, reset_deadline: self.reset_deadline, exit: self.exit }
    }
}

impl Worker {
    /// A worker that holds nothing yet.
    pub fn new(batch_size: usize) -> (worker: Self)
        ensures
            worker@ == WorkerModel::fresh(batch_size as nat),
    {
        Worker { batch: Vec::new(), batch_size, phase: Phase::Accumulating }
    }

    /// Where the worker stands.
    pub fn phase(&self) -> (phase: Phase)
        ensures
            phase == self@.phase,
    {
        self.phase
    }

    /// How many records wait in the batch.
    pub fn pending(&self) -> (n: usize)
        ensures
            n == self@.batch.len(),
    {
        self.batch.len()
    }

    /// The number of records at which a batch is flushed.
    pub fn batch_size(&self) -> (n: usize)
        ensures
            n == self@.batch_size,
    {
        self.batch_size
    }

    fn take(&mut self, record: Record, reset_deadline: bool) -> (step: WorkerStep)
        ensures
            (final(self)@, step@) == old(self)@.take(record, reset_deadline),
    {
        self.batch.push(record);
        if self.batch.len() >= self.batch_size {
            let mut flush: Vec<Record> = Vec::new();
            core::mem::swap(&mut self.batch, &mut flush);
            WorkerStep { flush, reset_deadline, exit: false }
        } else {
            WorkerStep { flush: Vec::new(), reset_deadline: false, exit: false }
        }
    }

    fn take_batch(&mut self) -> (batch: Vec<Record>)
        ensures
            batch@ == old(self)@.batch,
            final(self)@ == (WorkerModel { batch: Seq::empty(), ..old(self)@ }),
    {
        let mut batch: Vec<Record> = Vec::new();
        core::mem::swap(&mut self.batch, &mut batch);
        batch
    }

    fn finish(&mut self) -> (step: WorkerStep)
        ensures
            (final(self)@, step@) == old(self)@.finish(),
    {
        let flush = self.take_batch();
        self.phase = Phase::Stopped;
        WorkerStep { flush, reset_deadline: false, exit: true }
    }

    /// Polls the channel once, without waiting, and takes in what the poll
    /// found. This is how a draining worker empties the channel: it polls
    /// until a step says that the worker is done.
    pub fn poll(&mut self, receiver: &Receiver<Record>) -> (step: WorkerStep)
        ensures
            exists|outcome: RecvOutcome|
                (final(self)@, step@) == #[trigger] old(self)@.step(polled_event(outcome)),
    {
        let outcome = try_recv(receiver);
        self.step(event_of(outcome))
    }

    /// Takes in one event and says what is to be done.
    pub fn step(&mut self, event: WorkerEvent) -> (step: WorkerStep)
        ensures
            (final(self)@, step@) == old(self)@.step(event),
    {
        match self.phase {
            Phase::Accumulating => match event {
                WorkerEvent::Received(record) => self.take(record, true),
                WorkerEvent::DeadlineElapsed => {
                    let flush = self.take_batch();
                    WorkerStep { flush, reset_deadline: true, exit: false }
                },
                WorkerEvent::ShutdownSignal => {
                    self.phase = Phase::Draining;
                    WorkerStep { flush: Vec::new(), reset_deadline: false, exit: false }
                },
                WorkerEvent::Disconnected => self.finish(),
                WorkerEvent::Empty => WorkerStep {
                    flush: Vec::new(),
                    reset_deadline: false,
                    exit: false,
                },
            },
            Phase::Draining => match event {
                WorkerEvent::Received(record) => self.take(record, false),
                WorkerEvent::Disconnected => self.finish(),
                WorkerEvent::Empty => self.finish(),
                WorkerEvent::DeadlineElapsed => WorkerStep {
                    flush: Vec::new(),
                    reset_deadline: false,
                    exit: false,
                },
                WorkerEvent::ShutdownSignal => WorkerStep {
                    flush: Vec::new(),
                    reset_deadline: false,
                    exit: false,
                },
            },
            Phase::Stopped => match event {
                WorkerEvent::Received(record) => {
                    let mut flush = self.take_batch();
                    flush.push(record);
                    WorkerStep { flush, reset_deadline: false, exit: true }
                },
                _ => WorkerStep { flush: Vec::new(), reset_deadline: false, exit: true },
            },
        }
    }
}

} // verus!
