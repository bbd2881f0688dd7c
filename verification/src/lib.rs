//! Typed event reporting.
//!
//! Application code builds events and hands them to a reporter. The reporter is
//! bound to one output format: it asks the event for its message in that format
//! and passes the message on, either into a channel that a writer drains on
//! another thread, or straight into a sink.

mod channel;
pub mod direct;
pub mod error;
pub mod event;
pub mod format;
pub mod greeting;
pub mod laws;
pub mod progress;
pub mod report;
pub mod reporter;
pub mod sink;
mod tally;
pub mod turn;
pub mod writer;

pub use direct::DirectReporter;
pub use error::ReportError;
pub use error::SinkFailure;
pub use event::Event;
pub use format::HumanOutput;
pub use format::JsonOutput;
pub use format::OutputDisabled;
pub use format::ReportType;
pub use greeting::Greeting;
pub use progress::Color;
pub use progress::ProgressUpdate;
pub use progress::ProgressWriter;
pub use report::Report;
pub use reporter::GenericReporter;
pub use sink::MemorySink;
pub use sink::NullSink;
pub use sink::Sink;
pub use turn::FailurePolicy;
pub use turn::Stop;
pub use turn::Turn;
pub use writer::GenericWriter;
