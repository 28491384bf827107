//! Set-up and tear-down of a process-wide logging and tracing pipeline.
//!
//! The library holds the decisions: the console timestamp layout, the settings
//! of the console sink and of the remote trace exporter, and the life cycle of
//! the installed backend. Installing and stopping the backend is the caller's
//! part, as `Lifecycle` directs.
pub mod lifecycle;
pub mod settings;
pub mod timestamp;

pub use lifecycle::{Lifecycle, LifecycleError, ShutdownAction};
pub use settings::{
    ConsoleSettings, ExportSettings, KeyValue, OutputStream, PipelineSettings, Transport,
    AUTHORIZATION_KEY, AUTHORIZATION_VALUE, COLLECTOR_ENDPOINT, SERVICE_NAME_KEY,
};
pub use timestamp::{current_timestamp, ClockReading, TimeOfDay};
