//! What can go wrong between an event and its sink.

use vstd::prelude::*;

verus! {

/// A sink refused a message.
#[derive(Clone, Copy, Debug, PartialEq, Eq, Structural)]
pub struct SinkFailure;

/// Why an event was not reported.
#[derive(Clone, Copy, Debug, PartialEq, Eq, Structural)]
pub enum ReportError {
    /// The event has no rendering in the reporter's format. Nothing was
    /// rendered and nothing was handed on.
    UnsupportedFormat,
    /// The channel did not take the message: its receiving half is gone.
    DeliveryFailure,
    /// The sink refused the message.
    SinkFailure,
}

impl ReportError {
    /// What a reporter returns once its channel has answered: `sent` is the
    /// channel's answer, which holds the message again where it was not taken.
    pub fn after_send<M>(sent: Result<(), M>) -> (r: Result<(), ReportError>)
        ensures
            sent is Ok ==> r is Ok,
            sent is Err ==> r is Err && r->Err_0 == ReportError::DeliveryFailure,
    {
        match sent {
            Ok(()) => Ok(()),
            Err(_) => Err(ReportError::DeliveryFailure),
        }
    }

    /// What a reporter returns once its sink has answered.
    pub fn after_write(written: Result<(), SinkFailure>) -> (r: Result<(), ReportError>)
        ensures
            written is Ok ==> r is Ok,
            written is Err ==> r is Err && r->Err_0 == ReportError::SinkFailure,
    {
        match written {
            Ok(()) => Ok(()),
            Err(_) => Err(ReportError::SinkFailure),
        }
    }
}

} // verus!
