//! The turns of a writer: what its two kinds have in common.

use vstd::prelude::*;
use std::sync::mpsc::Receiver;
use crate::channel::receive;
use crate::error::SinkFailure;

verus! {

/// What a writer does when its sink refuses a message.
#[derive(Clone, Copy, Debug, PartialEq, Eq, Structural)]
pub enum FailurePolicy {
    /// Count the failure and go on with the next message.
    Continue,
    /// Stop, and say so to whoever runs the writer.
    Escalate,
}

/// How one turn of a writer ended.
#[derive(Clone, Copy, Debug, PartialEq, Eq, Structural)]
pub enum Turn {
    /// A message came and the sink took it.
    Written,
    /// A message came and the sink refused it.
    Refused,
    /// The channel is closed and empty.
    EndOfStream,
    /// The writer's counter is full: it takes no more messages.
    Exhausted,
}

/// Why a writer stopped.
#[derive(Clone, Copy, Debug, PartialEq, Eq, Structural)]
pub enum Stop {
    /// The channel is closed and everything that was in it has been taken.
    EndOfStream,
    /// The sink refused a message and the policy is `Escalate`.
    SinkFailure,
    /// The writer's counter is full.
    Exhausted,
}

/// What the sink gains from `messages`, taken one after another when `start`
/// others had been taken before: for each message that the sink took
/// (`kept` says which), the item that `due` makes of it at its place in the
/// count, in the order in which the messages came.
pub open spec fn written_of<V, S>(
    messages: Seq<V>,
    kept: Seq<bool>,
    start: nat,
    due: spec_fn(nat, V) -> S,
) -> Seq<S>
    decreases messages.len(),
{
    if messages.len() == 0 {
        Seq::empty()
    } else {
        let earlier = written_of(messages.drop_last(), kept.drop_last(), start, due);
        if kept.last() {
            earlier.push(due((start + messages.len() - 1) as nat, messages.last()))
        } else {
            earlier
        }
    }
}

/// How many messages the sink refused, where `kept` says of each message
/// whether the sink took it.
pub open spec fn refusals(kept: Seq<bool>) -> nat
    decreases kept.len(),
{
    if kept.len() == 0 {
        0
    } else {
        refusals(kept.drop_last()) + if kept.last() {
            0nat
        } else {
            1nat
        }
    }
}

/// A writer as its contracts see it. `V` is what a message says, `S` what
/// the sink holds for one message.
pub struct WriterView<V, S> {
    /// Every message taken off the channel, oldest first.
    pub taken: Seq<V>,
    /// For each message taken, whether the sink took it.
    pub kept: Seq<bool>,
    /// Everything that the sink holds, oldest first.
    pub accepted: Seq<S>,
    /// How many messages the sink has refused.
    pub failures: nat,
    /// What the writer does on a refusal.
    pub policy: FailurePolicy,
}

impl<V, S> WriterView<V, S> {
    /// The writer after it took `message` and its sink accepted `item` for
    /// it.
    pub open spec fn wrote(self, message: V, item: S) -> Self {
        WriterView {
            taken: self.taken.push(message),
            kept: self.kept.push(true),
            accepted: self.accepted.push(item),
            failures: self.failures,
            policy: self.policy,
        }
    }

    /// The writer after it took `message` and its sink refused it.
    pub open spec fn lost(self, message: V) -> Self {
        WriterView {
            taken: self.taken.push(message),
            kept: self.kept.push(false),
            accepted: self.accepted,
            failures: self.failures + 1,
            policy: self.policy,
        }
    }

    /// The messages that `later` has taken and `self` had not.
    pub open spec fn taken_since(self, later: Self) -> Seq<V> {
        later.taken.skip(self.taken.len() as int)
    }

    /// For each of these messages, whether the sink took it.
    pub open spec fn kept_since(self, later: Self) -> Seq<bool> {
        later.kept.skip(self.kept.len() as int)
    }

    /// `later` is this writer after any number of turns. Nothing taken is
    /// lost or reordered. The sink holds what it held and, behind that, for
    /// each message taken since that it did not refuse, the item that `due`
    /// makes of it, in the order in which the messages came. Each refusal
    /// has been counted.
    pub open spec fn leads_to(self, later: Self, due: spec_fn(nat, V) -> S) -> bool {
        &&& later.policy == self.policy
        &&& self.taken.is_prefix_of(later.taken)
        &&& self.kept.is_prefix_of(later.kept)
        &&& later.kept.len() - self.kept.len() == later.taken.len() - self.taken.len()
        &&& later.accepted =~= self.accepted + written_of(
            self.taken_since(later),
            self.kept_since(later),
            self.taken.len(),
            due,
        )
        &&& later.failures == self.failures + refusals(self.kept_since(later))
    }
}

/// One turn leads on: if `middle` follows `first` and `last` is `middle` after
/// one message, written or lost, then `last` follows `first`.
pub proof fn lemma_turn_leads_on<V, S>(
    first: WriterView<V, S>,
    middle: WriterView<V, S>,
    last: WriterView<V, S>,
    due: spec_fn(nat, V) -> S,
    message: V,
)
    requires
        first.leads_to(middle, due),
        last == middle.wrote(message, due(middle.taken.len(), message)) || last == middle.lost(
            message,
        ),
    ensures
        first.leads_to(last, due),
{
    let written = last.kept.last();
    let messages = first.taken_since(middle);
    let kept = first.kept_since(middle);
    assert(first.taken_since(last) =~= messages.push(message));
    assert(first.kept_since(last) =~= kept.push(written));
    assert(messages.push(message).drop_last() =~= messages);
    assert(kept.push(written).drop_last() =~= kept);
}

/// Every message is accounted for: of `messages`, each was either written
/// or refused.
pub proof fn lemma_written_adds_up<V, S>(
    messages: Seq<V>,
    kept: Seq<bool>,
    start: nat,
    due: spec_fn(nat, V) -> S,
)
    requires
        kept.len() == messages.len(),
    ensures
        written_of(messages, kept, start, due).len() + refusals(kept) == messages.len(),
    decreases messages.len(),
{
    if messages.len() > 0 {
        lemma_written_adds_up(messages.drop_last(), kept.drop_last(), start, due);
    }
}

/// Where the sink refuses nothing, it gains an item for every message, in
/// the order in which the messages came.
pub proof fn lemma_written_in_full<V, S>(
    messages: Seq<V>,
    kept: Seq<bool>,
    start: nat,
    due: spec_fn(nat, V) -> S,
)
    requires
        kept.len() == messages.len(),
        refusals(kept) == 0,
    ensures
        written_of(messages, kept, start, due) == Seq::new(
            messages.len(),
            |i: int| due((start + i) as nat, messages[i]),
        ),
    decreases messages.len(),
{
    if messages.len() > 0 {
        lemma_written_in_full(messages.drop_last(), kept.drop_last(), start, due);
    }
    assert(written_of(messages, kept, start, due) =~= Seq::new(
        messages.len(),
        |i: int| due((start + i) as nat, messages[i]),
    ));
}

/// What a writer must offer for its turns to be taken.
pub(crate) trait Intake {
    /// The messages that come off the channel.
    type Message: DeepView;

    /// What the sink holds for one message, as contracts see it.
    type Item;

    /// The writer as its contracts see it.
    spec fn record(&self) -> WriterView<<Self::Message as DeepView>::V, Self::Item>;

    /// What the sink is to hold for a message, given how many came before
    /// it.
    spec fn due() -> spec_fn(nat, <Self::Message as DeepView>::V) -> Self::Item;

    /// The receiving half that the writer holds.
    spec fn source(&self) -> Receiver<Self::Message>;

    /// The receiving half, to take from.
    fn inlet(&self) -> (inlet: &Receiver<Self::Message>)
        ensures
            *inlet == self.source(),
    ;

    /// Whether the counter has room for one more message.
    fn has_room(&self) -> (b: bool)
        ensures
            b == (self.record().taken.len() < u64::MAX),
            self.record().taken.len() <= u64::MAX,
    ;

    /// Whether a refusal stops the writer.
    fn escalates(&self) -> (b: bool)
        ensures
            b == (self.record().policy == FailurePolicy::Escalate),
    ;

    /// Hands one message that came off the channel to the sink, and counts
    /// it.
    fn take(&mut self, message: Self::Message) -> (r: Result<(), SinkFailure>)
        requires
            old(self).record().taken.len() < u64::MAX,
        ensures
            r is Ok ==> final(self).record() == old(self).record().wrote(
                message.deep_view(),
                Self::due()(old(self).record().taken.len(), message.deep_view()),
            ),
            r is Err ==> final(self).record() == old(self).record().lost(message.deep_view()),
            final(self).source() == old(self).source(),
    ;
}

/// One turn of `writer`: waits for the next message on the half that the
/// writer holds, and hands it to the sink.
pub(crate) fn take_turn<C: Intake>(writer: &mut C) -> (turn: Turn)
    ensures
        final(writer).source() == old(writer).source(),
        turn == Turn::Exhausted <==> old(writer).record().taken.len() == u64::MAX,
        final(writer).record().taken.len() <= u64::MAX,
        turn == Turn::Exhausted || turn == Turn::EndOfStream ==> final(writer).record() == old(writer).record(),
        turn == Turn::Written ==> final(writer).record() == old(writer).record().wrote(
            final(writer).record().taken.last(),
            C::due()(old(writer).record().taken.len(), final(writer).record().taken.last()),
        ),
        turn == Turn::Refused ==> final(writer).record() == old(writer).record().lost(
            final(writer).record().taken.last(),
        ),
{
    if !writer.has_room() {
        return Turn::Exhausted;
    }
    match receive(writer.inlet()) {
        None => Turn::EndOfStream,
        Some(message) => {
            let ghost said = message.deep_view();
            match writer.take(message) {
                Ok(()) => {
                    assert(writer.record() == old(writer).record().wrote(
                        said,
                        C::due()(old(writer).record().taken.len(), said),
                    ));
                    Turn::Written
                },
                Err(_) => {
                    assert(writer.record() == old(writer).record().lost(said));
                    Turn::Refused
                },
            }
        },
    }
}

/// The turns of `writer`, one after another, until it stops.
pub(crate) fn take_all<C: Intake>(writer: &mut C) -> (stop: Stop)
    ensures
        final(writer).source() == old(writer).source(),
        old(writer).record().leads_to(final(writer).record(), C::due()),
        old(writer).record().taken.len() == u64::MAX ==> stop == Stop::Exhausted && final(writer).record() == old(writer).record(),
        stop == Stop::Exhausted ==> final(writer).record().taken.len() == u64::MAX,
        stop == Stop::EndOfStream ==> final(writer).record().taken.len() < u64::MAX,
        stop == Stop::SinkFailure ==> old(writer).record().policy == FailurePolicy::Escalate
            && final(writer).record().failures == old(writer).record().failures + 1 && final(writer).record().kept.len() > old(writer).record().kept.len() && !final(writer).record().kept.last(),
        stop != Stop::SinkFailure && old(writer).record().policy == FailurePolicy::Escalate
            ==> final(writer).record().failures == old(writer).record().failures,
{
    loop
        invariant
            writer.source() == old(writer).source(),
            old(writer).record().leads_to(writer.record(), C::due()),
            writer.record().policy == FailurePolicy::Escalate ==> writer.record().failures == old(writer).record().failures,
            old(writer).record().taken.len() == u64::MAX ==> writer.record() == old(writer).record(),
        decreases u64::MAX - writer.record().taken.len(),
    {
        let ghost before = writer.record();
        match take_turn(writer) {
            Turn::Exhausted => {
                return Stop::Exhausted;
            },
            Turn::EndOfStream => {
                return Stop::EndOfStream;
            },
            Turn::Written => {
                proof {
                    lemma_turn_leads_on(
                        old(writer).record(),
                        before,
                        writer.record(),
                        C::due(),
                        writer.record().taken.last(),
                    );
                }
            },
            Turn::Refused => {
                proof {
                    lemma_turn_leads_on(
                        old(writer).record(),
                        before,
                        writer.record(),
                        C::due(),
                        writer.record().taken.last(),
                    );
                }
                if writer.escalates() {
                    return Stop::SinkFailure;
                }
            },
        }
    }
}

} // verus!
