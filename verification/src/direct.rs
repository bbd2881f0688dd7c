//! The reporter that writes on the caller's own thread.

use vstd::prelude::*;
use std::marker::PhantomData;
use crate::error::ReportError;
use crate::event::Event;
use crate::event::said;
use crate::format::OutputDisabled;
use crate::format::ReportType;
use crate::report::Report;
use crate::sink::NullSink;
use crate::sink::Sink;

verus! {

/// A reporter that renders each event and writes the message into its sink
/// before it returns: no channel and no second thread.
pub struct DirectReporter<T: ReportType, W: Sink> {
    output_type: PhantomData<T>,
    sink: W,
}

impl<T: ReportType, W: Sink> DirectReporter<T, W> {
    /// The sink that the reporter holds.
    pub closed spec fn held(&self) -> W {
        self.sink
    }

    /// A reporter for the format `T` that writes into `sink`. It keeps the
    /// sink given, and has written nothing into it.
    pub fn new(sink: W) -> (reporter: Self)
        ensures
            reporter.held() == sink,
            reporter.delivered() == sink.accepted(),
    {
        DirectReporter { output_type: PhantomData, sink }
    }

    /// The sink, to look at.
    pub fn sink(&self) -> (sink: &W)
        ensures
            *sink == self.held(),
            sink.accepted() == self.delivered(),
    {
        &self.sink
    }

    /// Gives up the reporter for its sink.
    pub fn into_sink(self) -> (sink: W)
        ensures
            sink == self.held(),
            sink.accepted() == self.delivered(),
    {
        self.sink
    }
}

impl DirectReporter<OutputDisabled, NullSink<()>> {
    /// The reporter for disabled output: it takes every event and hands
    /// nothing on for any.
    pub fn disabled() -> (reporter: Self)
        ensures
            reporter.delivered() == Seq::<()>::empty(),
    {
        DirectReporter::new(NullSink::new())
    }
}

impl<T: ReportType, W: Sink> Report<T> for DirectReporter<T, W> {
    type Message = W::Message;

    closed spec fn delivered(&self) -> Seq<<W::Message as DeepView>::V> {
        self.sink.accepted()
    }

    fn report_event<E>(&mut self, event: E) -> (r: Result<(), ReportError>) where
        E: Event<T, Message = W::Message>,

        ensures
            r is Err ==> r->Err_0 == ReportError::UnsupportedFormat || r->Err_0
                == ReportError::SinkFailure,
            !event.supported() || event.message() is None ==> final(self).held() == old(self).held(),
    {
        if !event.supports() {
            return Err(ReportError::UnsupportedFormat);
        }
        match event.render() {
            Some(message) => ReportError::after_write(self.sink.accept(message)),
            None => Ok(()),
        }
    }
}

} // verus!
