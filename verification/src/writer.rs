//! The writer: the receiving end of a reporter's channel.

use vstd::prelude::*;
use std::sync::mpsc::Receiver;
use crate::error::SinkFailure;
use crate::sink::Sink;
use crate::tally::Tally;
use crate::turn::FailurePolicy;
use crate::turn::Intake;
use crate::turn::Stop;
use crate::turn::Turn;
use crate::turn::WriterView;
use crate::turn::take_all;
use crate::turn::take_turn;

verus! {

/// What a plain writer hands its sink for a message: the message itself,
/// wherever it stands in the count.
pub open spec fn plain<V>() -> spec_fn(nat, V) -> V {
    |position: nat, message: V| message
}

/// A writer that takes messages off a channel and writes each into its sink.
///
/// It owns the receiving half of the channel and the sink, and shares neither.
/// It counts the messages that it takes and those that the sink refuses.
#[verifier::reject_recursive_types(Message)]
pub struct GenericWriter<W: Sink<Message = Message>, Message: DeepView> {
    receiver: Receiver<Message>,
    writer: W,
    policy: FailurePolicy,
    tally: Tally<Message::V>,
}

impl<W: Sink<Message = Message>, Message: DeepView> View for GenericWriter<W, Message> {
    type V = WriterView<Message::V, Message::V>;

    closed spec fn view(&self) -> WriterView<Message::V, Message::V> {
        WriterView {
            taken: self.tally.taken(),
            kept: self.tally.kept(),
            accepted: self.writer.accepted(),
            failures: self.tally.failures(),
            policy: self.policy,
        }
    }
}

impl<W: Sink<Message = Message>, Message: DeepView> GenericWriter<W, Message> {
    /// The receiving half that the writer holds.
    pub closed spec fn receiver(&self) -> Receiver<Message> {
        self.receiver
    }

    /// The sink that the writer holds.
    pub closed spec fn held(&self) -> W {
        self.writer
    }

    /// A writer on the receiving half of a channel that writes into `writer`.
    /// It keeps the half and the sink given, has taken nothing off the one
    /// and written nothing into the other, and goes on when the sink refuses
    /// a message.
    pub fn new(receiver: Receiver<Message>, writer: W) -> (made: Self)
        ensures
            made.receiver() == receiver,
            made.held() == writer,
            made@ == (WriterView {
                taken: Seq::<Message::V>::empty(),
                kept: Seq::<bool>::empty(),
                accepted: writer.accepted(),
                failures: 0,
                policy: FailurePolicy::Continue,
            }),
    {
        GenericWriter { receiver, writer, policy: FailurePolicy::Continue, tally: Tally::new() }
    }

    /// The same writer with another policy for refusals.
    pub fn with_policy(self, policy: FailurePolicy) -> (made: Self)
        ensures
            made.receiver() == self.receiver(),
            made.held() == self.held(),
            made@ == (WriterView {
                taken: self@.taken,
                kept: self@.kept,
                accepted: self@.accepted,
                failures: self@.failures,
                policy,
            }),
    {
        GenericWriter { receiver: self.receiver, writer: self.writer, policy, tally: self.tally }
    }

    /// How many messages the writer has taken off the channel.
    pub fn count(&self) -> (n: u64)
        ensures
            n == self@.taken.len(),
            n == self@.kept.len(),
    {
        self.tally.count()
    }

    /// How many messages the sink has refused.
    pub fn failures(&self) -> (n: u64)
        ensures
            n == self@.failures,
            n <= self@.taken.len(),
    {
        self.tally.refused()
    }

    /// What the writer does when the sink refuses a message.
    pub fn policy(&self) -> (policy: FailurePolicy)
        ensures
            policy == self@.policy,
    {
        self.policy
    }

    /// The sink, to look at.
    pub fn sink(&self) -> (sink: &W)
        ensures
            *sink == self.held(),
            sink.accepted() == self@.accepted,
    {
        &self.writer
    }

    /// Gives up the writer for its sink.
    pub fn into_sink(self) -> (sink: W)
        ensures
            sink == self.held(),
            sink.accepted() == self@.accepted,
    {
        self.writer
    }

    /// Writes one message that came off the channel into the sink, and counts
    /// it. The sink's answer is handed back as it is.
    pub fn consume(&mut self, message: Message) -> (r: Result<(), SinkFailure>)
        requires
            old(self)@.taken.len() < u64::MAX,
        ensures
            final(self).receiver() == old(self).receiver(),
            r is Ok ==> final(self)@ == old(self)@.wrote(message.deep_view(), message.deep_view()),
            r is Err ==> final(self)@ == old(self)@.lost(message.deep_view()),
    {
        let said = Ghost(message.deep_view());
        let r = self.writer.accept(message);
        self.tally.record(said, r.is_ok());
        r
    }

    /// One turn: waits for the next message and writes it.
    ///
    /// A writer whose counter is full takes nothing more and answers
    /// `Exhausted`; no other writer does. Otherwise the turn ends when a
    /// message has come, which is then written or lost, or when the channel
    /// has closed. Which of these happens is up to the sending half.
    pub fn update(&mut self) -> (turn: Turn)
        ensures
            final(self).receiver() == old(self).receiver(),
            turn == Turn::Exhausted <==> old(self)@.taken.len() == u64::MAX,
            final(self)@.taken.len() <= u64::MAX,
            turn == Turn::Exhausted || turn == Turn::EndOfStream ==> final(self)@ == old(self)@,
            turn == Turn::Written ==> final(self)@ == old(self)@.wrote(
                final(self)@.taken.last(),
                final(self)@.taken.last(),
            ),
            turn == Turn::Refused ==> final(self)@ == old(self)@.lost(final(self)@.taken.last()),
    {
        take_turn(self)
    }

    /// Takes messages until the channel is closed and empty, and writes each
    /// into the sink, in the order in which they come.
    ///
    /// A writer whose counter is full takes nothing and answers `Exhausted` at
    /// once. Any other writer takes what comes, one message after another,
    /// and stops in one of three ways: at the end of the stream, with room
    /// left in its counter; when its counter has become full; or, under
    /// `Escalate` only, at the first message that the sink refuses, which is
    /// then the last one taken. Under `Continue` a refused message is counted
    /// and left out, and the sink holds the others in the order in which they
    /// came.
    pub fn run(&mut self) -> (stop: Stop)
        ensures
            final(self).receiver() == old(self).receiver(),
            old(self)@.leads_to(final(self)@, plain()),
            old(self)@.taken.len() == u64::MAX ==> stop == Stop::Exhausted && final(self)@ == old(self)@,
            stop == Stop::Exhausted ==> final(self)@.taken.len() == u64::MAX,
            stop == Stop::EndOfStream ==> final(self)@.taken.len() < u64::MAX,
            stop == Stop::SinkFailure ==> old(self)@.policy == FailurePolicy::Escalate
                && final(self)@.failures == old(self)@.failures + 1 && final(self)@.kept.len()
                > old(self)@.kept.len() && !final(self)@.kept.last(),
            stop != Stop::SinkFailure && old(self)@.policy == FailurePolicy::Escalate
                ==> final(self)@.failures == old(self)@.failures,
    {
        take_all(self)
    }
}

impl<W: Sink<Message = Message>, Message: DeepView> Intake for GenericWriter<W, Message> {
    type Message = Message;

    type Item = Message::V;

    open spec fn record(&self) -> WriterView<Message::V, Message::V> {
        self@
    }

    open spec fn due() -> spec_fn(nat, Message::V) -> Message::V {
        plain()
    }

    open spec fn source(&self) -> Receiver<Message> {
        self.receiver()
    }

    fn inlet(&self) -> (inlet: &Receiver<Message>) {
        &self.receiver
    }

    fn has_room(&self) -> (b: bool) {
        self.tally.count() < u64::MAX
    }

    fn escalates(&self) -> (b: bool) {
        match self.policy {
            FailurePolicy::Escalate => true,
            FailurePolicy::Continue => false,
        }
    }

    fn take(&mut self, message: Message) -> (r: Result<(), SinkFailure>) {
        self.consume(message)
    }
}

} // verus!
