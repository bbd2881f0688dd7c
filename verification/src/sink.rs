//! Where messages end up.

use vstd::prelude::*;
use crate::error::SinkFailure;

verus! {

/// The last stop of a message: a stream, a display, or nothing at all.
///
/// A sink takes a message whole or not at all. `accepted` is the record of what
/// it has taken, oldest first.
pub trait Sink {
    /// The messages that this sink takes.
    type Message: DeepView;

    /// What the sink has taken so far. An impl states it by giving this
    /// function a body of its own; left as it is, nothing is known of it.
    open spec fn accepted(&self) -> Seq<<Self::Message as DeepView>::V> {
        arbitrary()
    }

    /// Hands one message to the sink. On failure the sink has taken nothing of
    /// it.
    fn accept(&mut self, message: Self::Message) -> (r: Result<(), SinkFailure>)
        ensures
            r is Ok ==> final(self).accepted() == old(self).accepted().push(message.deep_view()),
            r is Err ==> final(self).accepted() == old(self).accepted(),
    ;
}

/// A sink that takes every message and keeps none: at run time it holds
/// nothing, and nothing can be read back from it.
pub struct NullSink<M: DeepView> {
    seen: Ghost<Seq<M::V>>,
}

impl<M: DeepView> NullSink<M> {
    /// A sink that has taken nothing yet.
    pub fn new() -> (sink: Self)
        ensures
            sink.accepted() == Seq::<M::V>::empty(),
    {
        NullSink { seen: Ghost(Seq::empty()) }
    }
}

impl<M: DeepView> Sink for NullSink<M> {
    type Message = M;

    closed spec fn accepted(&self) -> Seq<M::V> {
        self.seen@
    }

    fn accept(&mut self, message: M) -> (r: Result<(), SinkFailure>)
        ensures
            r is Ok,
    {
        proof {
            self.seen@ = self.seen@.push(message.deep_view());
        }
        Ok(())
    }
}

/// A sink that keeps its messages in memory, in the order in which they came.
pub struct MemorySink<M: DeepView> {
    messages: Vec<M>,
}

impl<M: DeepView> MemorySink<M> {
    /// An empty sink.
    pub fn new() -> (sink: Self)
        ensures
            sink.accepted() == Seq::<M::V>::empty(),
    {
        let sink = MemorySink { messages: Vec::new() };
        assert(sink.messages.deep_view() =~= Seq::<M::V>::empty());
        sink
    }

    /// How many messages the sink holds.
    pub fn len(&self) -> (n: usize)
        ensures
            n == self.accepted().len(),
    {
        self.messages.len()
    }

    /// The messages held, oldest first.
    pub fn messages(&self) -> (held: &Vec<M>)
        ensures
            held.deep_view() == self.accepted(),
    {
        &self.messages
    }

    /// Gives up the sink for the messages it holds.
    pub fn into_messages(self) -> (held: Vec<M>)
        ensures
            held.deep_view() == self.accepted(),
    {
        self.messages
    }
}

impl<M: DeepView> Sink for MemorySink<M> {
    type Message = M;

    closed spec fn accepted(&self) -> Seq<M::V> {
        self.messages.deep_view()
    }

    fn accept(&mut self, message: M) -> (r: Result<(), SinkFailure>)
        ensures
            r is Ok,
    {
        self.messages.push(message);
        assert(self.messages.deep_view() =~= old(self).messages.deep_view().push(
            message.deep_view(),
        ));
        Ok(())
    }
}

} // verus!
