//! The process-wide logger: a cell that is filled once.

use crate::logger::Logger;
use crate::shutdown::{ShutdownActions, ShutdownHandle, ShutdownModel};
use vstd::prelude::*;

verus! {

/// What a registry holds after `candidate` was offered to it: the logger it
/// held before, or else the candidate.
pub open spec fn installed(held: Option<Logger>, candidate: Logger) -> Option<Logger> {
    match held {
        Some(logger) => Some(logger),
        None => Some(candidate),
    }
}

/// The place of the one logger of a process. It starts empty, is filled by
/// the first build and keeps that logger for good.
#[derive(Debug)]
pub struct LoggerRegistry {
    logger: Option<Logger>,
}

impl View for LoggerRegistry {
    type V = Option<Logger>;

    closed spec fn view(&self) -> Option<Logger> {
        self.logger
    }
}

impl LoggerRegistry {
    /// An empty registry.
    pub fn new() -> (registry: Self)
        ensures
            registry@ is None,
    {
        LoggerRegistry { logger: None }
    }

    /// Whether a logger has been built.
    pub fn is_initialized(&self) -> (set: bool)
        ensures
            set == (self@ is Some),
    {
        self.logger.is_some()
    }

    /// The logger, if one has been built.
    pub fn get(&self) -> (logger: Option<&Logger>)
        ensures
            logger matches Some(l) ==> self@ == Some(*l),
            logger is None ==> self@ is None,
    {
        self.logger.as_ref()
    }

    /// Offers a logger to the registry. It is taken where the registry is
    /// empty, and dropped where the registry holds one already.
    pub fn install(&mut self, candidate: Logger) -> (taken: bool)
        ensures
            final(self)@ == installed(old(self)@, candidate),
            taken == (old(self)@ is None),
    {
        if self.logger.is_some() {
            false
        } else {
            self.logger = Some(candidate);
            true
        }
    }
}

/// The logger of the process.
pub fn get_global_logger(registry: &LoggerRegistry) -> (logger: &Logger)
    requires
        registry@ is Some,
    ensures
        registry@ == Some(*logger),
{
    match registry.get() {
        Some(logger) => logger,
        None => vstd::pervasive::unreached(),
    }
}

/// What the shutdown of the process-wide logger hands over, and what is left
/// of its coordinator: nothing happens where no logger was ever started.
pub open spec fn global_shutdown<S, W>(coordinator: Option<ShutdownHandle<S, W>>) -> (
    Option<ShutdownModel<S, W>>,
    ShutdownModel<S, W>,
) {
    match coordinator {
        Some(handle) => (Some(handle@.shutdown().0), handle@.shutdown().1),
        None => (None, ShutdownModel::spent()),
    }
}

/// The view of a coordinator that may not exist yet.
pub open spec fn coordinator_view<S, W>(coordinator: Option<ShutdownHandle<S, W>>) -> Option<
    ShutdownModel<S, W>,
> {
    match coordinator {
        Some(handle) => Some(handle@),
        None => None,
    }
}

/// Shuts the process-wide logger down, if one was started: the caller drops
/// the signal sender it gets and then waits for the worker it gets. Meant to
/// run on request and at process exit; whichever comes second finds nothing
/// left to do.
pub fn shutdown_global_logger<S, W>(coordinator: &mut Option<ShutdownHandle<S, W>>) -> (actions:
    ShutdownActions<S, W>)
    ensures
        (coordinator_view(*final(coordinator)), actions@) == global_shutdown(*old(coordinator)),
{
    match coordinator {
        Some(handle) => handle.shutdown(),
        None => ShutdownActions { signal: None, worker: None },
    }
}

/// Initialization is idempotent: of two loggers offered one after the other
/// to an empty registry, the registry holds the first, and whatever the
/// second was configured with has no effect.
pub proof fn lemma_first_build_wins(first: Logger, second: Logger)
    ensures
        installed(installed(None, first), second) == Some(first),
{
}

/// A registry that holds a logger keeps it, whatever is offered.
pub proof fn lemma_registry_keeps_logger(held: Option<Logger>, candidate: Logger)
    requires
        held is Some,
    ensures
        installed(held, candidate) == held,
{
}

} // verus!
