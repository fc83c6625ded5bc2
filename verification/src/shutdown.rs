//! The shutdown coordinator: two resources, each given up exactly once.

use vstd::prelude::*;

verus! {

/// Holds the sending half of the signal channel and the handle of the worker
/// thread until shutdown.
#[derive(Debug)]
pub struct ShutdownHandle<S, W> {
    shutdown_sender: Option<S>,
    worker_thread: Option<W>,
}

/// What a shutdown hands over: the signal sender, to be dropped first, and
/// the worker's handle, to be waited for after that.
#[derive(Debug)]
pub struct ShutdownActions<S, W> {
    pub signal: Option<S>,
    pub worker: Option<W>,
}

/// What a [`ShutdownHandle`] still holds.
pub struct ShutdownModel<S, W> {
    pub signal: Option<S>,
    pub worker: Option<W>,
}

impl<S, W> ShutdownModel<S, W> {
    /// A handle that has given up both resources.
    pub open spec fn spent() -> Self {
        ShutdownModel { signal: None, worker: None }
    }

    /// A shutdown: everything still held is handed over, nothing is kept.
    pub open spec fn shutdown(self) -> (Self, Self) {
        (Self::spent(), self)
    }
}

impl<S, W> View for ShutdownHandle<S, W> {
    type V = ShutdownModel<S, W>;

    closed spec fn view(&self) -> ShutdownModel<S, W> {
        ShutdownModel { signal: self.shutdown_sender, worker: self.worker_thread }
    }
}

impl<S, W> View for ShutdownActions<S, W> {
    type V = ShutdownModel<S, W>;

    open spec fn view(&self) -> ShutdownModel<S, W> {
        ShutdownModel { signal: self.signal, worker: self.worker }
    }
}

impl<S, W> ShutdownHandle<S, W> {
    pub fn new(shutdown_sender: S, worker_thread: W) -> (handle: Self)
        ensures
            handle@ == (ShutdownModel { signal: Some(shutdown_sender), worker: Some(worker_thread) }),
    {
        Self { shutdown_sender: Some(shutdown_sender), worker_thread: Some(worker_thread) }
    }

    /// Whether both resources have been given up.
    pub fn is_spent(&self) -> (spent: bool)
        ensures
            spent == (self@ == ShutdownModel::<S, W>::spent()),
    {
        self.shutdown_sender.is_none() && self.worker_thread.is_none()
    }

    /// Gives up what is still held. The caller drops the signal sender,
    /// which tells the worker to drain, and then waits for the worker.
    pub fn shutdown(&mut self) -> (actions: ShutdownActions<S, W>)
        ensures
            (final(self)@, actions@) == old(self)@.shutdown(),
    {
        let signal = self.shutdown_sender.take();
        let worker = self.worker_thread.take();
        ShutdownActions { signal, worker }
    }
}

/// Shutdown is idempotent: after one shutdown another one hands over
/// nothing, so no signal is closed twice and no worker is joined twice.
pub proof fn lemma_shutdown_once<S, W>(handle: ShutdownModel<S, W>)
    ensures
        handle.shutdown().0.shutdown().1 == ShutdownModel::<S, W>::spent(),
        handle.shutdown().0.shutdown().0 == handle.shutdown().0,
{
}

} // verus!
