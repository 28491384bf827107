//! The life cycle of the process-wide tracing backend.
//!
//! A backend is either absent or active for one service. Initializing installs
//! one where none is; shutting down removes it, flushing buffered spans, and is
//! a no-op where none is installed.
use crate::settings::PipelineSettings;
use vstd::prelude::*;

verus! {

/// Why an initialization was refused.
#[derive(Clone, Copy, Debug, PartialEq, Eq)]
pub enum LifecycleError {
    /// A backend is installed already; it must be shut down first.
    AlreadyActive,
}

/// What the caller does to the installed backend on shutdown.
#[derive(Clone, Copy, Debug, PartialEq, Eq)]
pub enum ShutdownAction {
    /// Flush the buffered spans and stop the trace provider.
    FlushAndStop,
    /// Nothing is installed: do nothing.
    Nothing,
}

/// Whether `initialize` installs a backend from state `s`.
pub open spec fn accepts_initialize(s: Option<Seq<char>>) -> bool {
    s is None
}

/// The state after `initialize(service_name)` from state `s`: a refused call
/// leaves the state as it was.
pub open spec fn after_initialize(s: Option<Seq<char>>, service_name: Seq<char>) -> Option<
    Seq<char>,
> {
    if accepts_initialize(s) {
        Some(service_name)
    } else {
        s
    }
}

/// Whether `shutdown` from state `s` has buffered spans flushed.
pub open spec fn shutdown_flushes(s: Option<Seq<char>>) -> bool {
    s is Some
}

/// The state after `shutdown` from any state: nothing is installed.
pub open spec fn after_shutdown(s: Option<Seq<char>>) -> Option<Seq<char>> {
    None
}

/// The backend's state: the name of the service that the installed backend
/// tags its spans with, or `None` when nothing is installed.
pub struct Lifecycle {
    active_service: Option<String>,
}

impl View for Lifecycle {
    type V = Option<Seq<char>>;

    closed spec fn view(&self) -> Option<Seq<char>> {
        match self.active_service {
            Some(name) => Some(name@),
            None => None,
        }
    }
}

impl Lifecycle {
    /// No backend installed.
    pub fn new() -> (r: Lifecycle)
        ensures
            r@ is None,
    {
        Lifecycle { active_service: None }
    }

    pub fn is_active(&self) -> (r: bool)
        ensures
            r == (self@ is Some),
    {
        self.active_service.is_some()
    }

    /// Starts a backend for `service_name` where none is installed, and
    /// returns the settings to build it from. The name is not examined: an
    /// empty one is accepted. Where a backend is installed already, the call
    /// is refused and changes nothing.
    pub fn initialize(&mut self, service_name: &str) -> (r: Result<
        PipelineSettings,
        LifecycleError,
    >)
        ensures
            r is Ok <==> accepts_initialize(old(self)@),
            r matches Ok(p) ==> p.describes(service_name@),
            r matches Err(e) ==> e == LifecycleError::AlreadyActive,
            final(self)@ == after_initialize(old(self)@, service_name@),
    {
        if self.active_service.is_some() {
            Err(LifecycleError::AlreadyActive)
        } else {
            self.active_service = Some(String::from_str(service_name));
            Ok(PipelineSettings::for_service(service_name))
        }
    }

    /// Ends the installed backend, if any. The result says whether the caller
    /// must flush and stop the trace provider.
    pub fn shutdown(&mut self) -> (r: ShutdownAction)
        ensures
            r == ShutdownAction::FlushAndStop <==> shutdown_flushes(old(self)@),
            final(self)@ == after_shutdown(old(self)@),
    {
        let r = if self.active_service.is_some() {
            ShutdownAction::FlushAndStop
        } else {
            ShutdownAction::Nothing
        };
        self.active_service = None;
        r
    }
}

/// Shutting down before anything was initialized flushes nothing and leaves
/// nothing installed.
pub proof fn lemma_shutdown_before_initialize()
    ensures
        !shutdown_flushes(None),
        after_shutdown(None) is None,
{
}

/// For every service name, an initialization from the start is accepted, and
/// the shutdown after it flushes the backend and leaves nothing installed.
pub proof fn lemma_initialize_then_shutdown(service_name: Seq<char>)
    ensures
        accepts_initialize(None),
        after_initialize(None, service_name) == Some(service_name),
        shutdown_flushes(after_initialize(None, service_name)),
        after_shutdown(after_initialize(None, service_name)) is None,
{
}

/// Two shutdowns in a row, from any state, end with nothing installed, and the
/// second one flushes nothing.
pub proof fn lemma_shutdown_twice(s: Option<Seq<char>>)
    ensures
        after_shutdown(after_shutdown(s)) is None,
        !shutdown_flushes(after_shutdown(s)),
{
}

} // verus!
