//! What it is to be a reporter.

use vstd::prelude::*;
use crate::error::ReportError;
use crate::event::Event;
use crate::event::said;
use crate::format::ReportType;

verus! {

/// A reporter bound to the format `T`.
///
/// Code that has something to report builds an event and calls
/// `report_event`; how the message travels from there is the reporter's
/// business. `delivered` is the record of the messages that the reporter has
/// handed on, oldest first.
pub trait Report<T: ReportType> {
    /// The messages that this reporter hands on.
    type Message: DeepView;

    /// What the reporter has handed on so far. An impl states it by giving
    /// this function a body of its own; left as it is, nothing is known of it.
    open spec fn delivered(&self) -> Seq<<Self::Message as DeepView>::V> {
        arbitrary()
    }

    /// Reports one event.
    ///
    /// An event without a rendering in `T` is turned away with
    /// `UnsupportedFormat`, and no other event is. An event that says
    /// nothing in `T` is taken with success, and nothing is handed on for
    /// it. On success the event's message, if it has one, and nothing else
    /// has been handed on once, behind all earlier ones. On any error
    /// nothing has been handed on.
    fn report_event<E>(&mut self, event: E) -> (r: Result<(), ReportError>) where
        E: Event<T, Message = Self::Message>,

        ensures
            !event.supported() <==> r is Err && r->Err_0 == ReportError::UnsupportedFormat,
            event.supported() && event.message() is None ==> r is Ok,
            r is Ok ==> final(self).delivered() == old(self).delivered() + said::<T, E>(event),
            r is Err ==> final(self).delivered() == old(self).delivered(),
    ;
}

} // verus!
