//! The reporter that sends its messages through a channel.

use vstd::prelude::*;
use std::marker::PhantomData;
use std::sync::mpsc::Sender;
use crate::channel::send;
use crate::error::ReportError;
use crate::event::Event;
use crate::event::said;
use crate::format::ReportType;
use crate::report::Report;

verus! {

/// A reporter that renders each event and sends the message to a writer.
///
/// It holds the sending half of a channel and writes nothing itself. It is
/// bound to the format `T`, so that it takes only events that can be rendered
/// in it, and to the message type of the channel. Dropping the reporter closes
/// its half of the channel: the writer then drains what is left and stops.
#[verifier::reject_recursive_types(Message)]
pub struct GenericReporter<T: ReportType, Message: DeepView> {
    output_type: PhantomData<T>,
    sender: Sender<Message>,
    forwarded: Ghost<Seq<Message::V>>,
}

impl<T: ReportType, Message: DeepView> GenericReporter<T, Message> {
    /// The sending half that the reporter holds.
    pub closed spec fn sender(&self) -> Sender<Message> {
        self.sender
    }

    /// A reporter for the format `T` on the sending half of a channel. It
    /// keeps the half given, and has sent nothing on it.
    pub fn new(sender: Sender<Message>) -> (reporter: Self)
        ensures
            reporter.sender() == sender,
            reporter.delivered() == Seq::<Message::V>::empty(),
    {
        GenericReporter { output_type: PhantomData, sender, forwarded: Ghost(Seq::empty()) }
    }

    /// Sends one rendered message.
    ///
    /// Whether the channel takes it is up to the receiving half. If that is
    /// gone the answer is `DeliveryFailure`, and it is the only error.
    pub fn forward(&mut self, message: Message) -> (r: Result<(), ReportError>)
        ensures
            r is Ok ==> final(self).delivered() == old(self).delivered().push(
                message.deep_view(),
            ),
            r is Err ==> final(self).delivered() == old(self).delivered(),
            r is Err ==> r->Err_0 == ReportError::DeliveryFailure,
            final(self).sender() == old(self).sender(),
    {
        let ghost said = message.deep_view();
        let r = ReportError::after_send(send(&self.sender, message));
        if r.is_ok() {
            proof {
                self.forwarded@ = self.forwarded@.push(said);
            }
        }
        r
    }
}

impl<T: ReportType, Message: DeepView> Report<T> for GenericReporter<T, Message> {
    type Message = Message;

    closed spec fn delivered(&self) -> Seq<Message::V> {
        self.forwarded@
    }

    fn report_event<E>(&mut self, event: E) -> (r: Result<(), ReportError>) where
        E: Event<T, Message = Message>,

        ensures
            r is Err ==> r->Err_0 == ReportError::UnsupportedFormat || r->Err_0
                == ReportError::DeliveryFailure,
            final(self).sender() == old(self).sender(),
    {
        if !event.supports() {
            return Err(ReportError::UnsupportedFormat);
        }
        match event.render() {
            Some(message) => self.forward(message),
            None => Ok(()),
        }
    }
}

} // verus!
