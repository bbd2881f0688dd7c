//! The writer that drives a progress display.

use vstd::prelude::*;
use std::sync::mpsc::Receiver;
use crate::error::SinkFailure;
use crate::sink::Sink;
use crate::tally::Tally;
use crate::turn::FailurePolicy;
use crate::turn::Intake;
use crate::turn::Stop;
use crate::turn::Turn;
use crate::turn::WriterView;
use crate::turn::take_all;
use crate::turn::take_turn;
use crate::turn::written_of;

verus! {

/// The colours of the display, in the order in which they take turns.
#[derive(Clone, Copy, Debug, PartialEq, Eq, Structural)]
pub enum Color {
    Red,
    Orange,
    Yellow,
    Green,
    Blue,
    Purple,
    Pink,
}

/// How many colours there are: after this many messages the first one comes
/// round again.
pub const PALETTE_SIZE: u64 = 7;

/// The colour of the message that `count` others came before.
pub open spec fn color_at(count: nat) -> Color {
    let turn = count % 7;
    if turn == 0 {
        Color::Red
    } else if turn == 1 {
        Color::Orange
    } else if turn == 2 {
        Color::Yellow
    } else if turn == 3 {
        Color::Green
    } else if turn == 4 {
        Color::Blue
    } else if turn == 5 {
        Color::Purple
    } else {
        Color::Pink
    }
}

/// A colour's name, as a display takes it.
pub open spec fn color_name(color: Color) -> Seq<char> {
    match color {
        Color::Red => "red"@,
        Color::Orange => "orange"@,
        Color::Yellow => "yellow"@,
        Color::Green => "green"@,
        Color::Blue => "blue"@,
        Color::Purple => "purple"@,
        Color::Pink => "pink"@,
    }
}

/// The colours come round: a message has the colour of the one that came
/// `PALETTE_SIZE` messages before it.
pub proof fn lemma_colors_come_round(count: nat)
    ensures
        color_at(count + PALETTE_SIZE as nat) == color_at(count),
{
}

impl Color {
    /// The colour of the message that `count` others came before.
    pub fn at(count: u64) -> (color: Color)
        ensures
            color == color_at(count as nat),
    {
        let turn: u64 = count % PALETTE_SIZE;
        if turn == 0 {
            Color::Red
        } else if turn == 1 {
            Color::Orange
        } else if turn == 2 {
            Color::Yellow
        } else if turn == 3 {
            Color::Green
        } else if turn == 4 {
            Color::Blue
        } else if turn == 5 {
            Color::Purple
        } else {
            Color::Pink
        }
    }

    /// The colour's name.
    pub fn name(&self) -> (name: &'static str)
        ensures
            name@ == color_name(*self),
    {
        match self {
            Color::Red => "red",
            Color::Orange => "orange",
            Color::Yellow => "yellow",
            Color::Green => "green",
            Color::Blue => "blue",
            Color::Purple => "purple",
            Color::Pink => "pink",
        }
    }
}

/// What a progress writer hands its display for one message.
#[derive(Debug, PartialEq, Eq)]
pub struct ProgressUpdate<M> {
    /// Where the display stands: the number of messages that came before.
    pub position: u64,
    /// The colour to show it in.
    pub color: Color,
    /// The message itself.
    pub message: M,
}

/// A `ProgressUpdate` as contracts see it.
pub struct Shown<V> {
    /// Where the display stands.
    pub position: nat,
    /// The colour it is shown in.
    pub color: Color,
    /// What the message says.
    pub message: V,
}

impl<M: DeepView> DeepView for ProgressUpdate<M> {
    type V = Shown<M::V>;

    open spec fn deep_view(&self) -> Shown<M::V> {
        Shown {
            position: self.position as nat,
            color: self.color,
            message: self.message.deep_view(),
        }
    }
}

/// The update for `message` when `count` messages came before it.
pub open spec fn shown_at<V>(count: nat, message: V) -> Shown<V> {
    Shown { position: count, color: color_at(count), message }
}

/// What a progress writer hands its display for a message: the update due
/// at the message's place in the count.
pub open spec fn framed<V>() -> spec_fn(nat, V) -> Shown<V> {
    |position: nat, message: V| shown_at(position, message)
}

/// The display moves forward only. Let `shown` be what a display gains from
/// `messages`, taken when `start` others had been taken before. Then each
/// update in it is the one due for one of these messages at its place in the
/// count, and the positions rise from one update to the next.
pub proof fn lemma_positions_rise<V>(messages: Seq<V>, kept: Seq<bool>, start: nat)
    ensures
        forall|i: int|
            #![trigger written_of(messages, kept, start, framed())[i]]
            0 <= i < written_of(messages, kept, start, framed()).len() ==> {
                let update = written_of(messages, kept, start, framed())[i];
                &&& start <= update.position < start + messages.len()
                &&& update == shown_at(update.position, messages[update.position - start])
            },
        forall|i: int, j: int|
            #![trigger written_of(messages, kept, start, framed())[i], written_of(messages, kept, start, framed())[j]]
            0 <= i < j < written_of(messages, kept, start, framed()).len() ==> written_of(
                messages,
                kept,
                start,
                framed(),
            )[i].position < written_of(messages, kept, start, framed())[j].position,
    decreases messages.len(),
{
    if messages.len() > 0 {
        let shown = written_of(messages, kept, start, framed::<V>());
        let earlier = written_of(messages.drop_last(), kept.drop_last(), start, framed::<V>());
        lemma_positions_rise(messages.drop_last(), kept.drop_last(), start);
        assert forall|i: int| #![trigger shown[i]] 0 <= i < shown.len() implies {
            &&& start <= shown[i].position < start + messages.len()
            &&& shown[i] == shown_at(shown[i].position, messages[shown[i].position - start])
        } by {
            if i < earlier.len() {
                assert(shown[i] == earlier[i]);
                assert(messages.drop_last()[earlier[i].position - start] == messages[earlier[
                    i
                ].position - start]);
            }
        }
        assert forall|i: int, j: int| #![trigger shown[i], shown[j]] 0 <= i < j
            < shown.len() implies shown[i].position < shown[j].position by {
            assert(shown[i] == earlier[i]);
            if j < earlier.len() {
                assert(shown[j] == earlier[j]);
            }
        }
    }
}

/// A writer that takes messages off a channel and shows each on a progress
/// display, with its place in the count and a colour from the palette.
///
/// The count is the writer's own: it starts at zero, rises by one with each
/// message taken, and nothing else moves it. A refused update is counted, and
/// the writer goes on.
#[verifier::reject_recursive_types(Message)]
pub struct ProgressWriter<W: Sink<Message = ProgressUpdate<Message>>, Message: DeepView> {
    receiver: Receiver<Message>,
    display: W,
    tally: Tally<Message::V>,
}

impl<W: Sink<Message = ProgressUpdate<Message>>, Message: DeepView> View for ProgressWriter<
    W,
    Message,
> {
    type V = WriterView<Message::V, Shown<Message::V>>;

    closed spec fn view(&self) -> WriterView<Message::V, Shown<Message::V>> {
        WriterView {
            taken: self.tally.taken(),
            kept: self.tally.kept(),
            accepted: self.display.accepted(),
            failures: self.tally.failures(),
            policy: FailurePolicy::Continue,
        }
    }
}

impl<W: Sink<Message = ProgressUpdate<Message>>, Message: DeepView> ProgressWriter<W, Message> {
    /// The receiving half that the writer holds.
    pub closed spec fn receiver(&self) -> Receiver<Message> {
        self.receiver
    }

    /// The display that the writer holds.
    pub closed spec fn held(&self) -> W {
        self.display
    }

    /// A writer on the receiving half of a channel that shows on `display`.
    /// It keeps the half and the display given, and has taken nothing off
    /// the one and shown nothing on the other.
    pub fn new(receiver: Receiver<Message>, display: W) -> (made: Self)
        ensures
            made.receiver() == receiver,
            made.held() == display,
            made@ == (WriterView {
                taken: Seq::<Message::V>::empty(),
                kept: Seq::<bool>::empty(),
                accepted: display.accepted(),
                failures: 0,
                policy: FailurePolicy::Continue,
            }),
    {
        ProgressWriter { receiver, display, tally: Tally::new() }
    }

    /// The count: how many messages the writer has taken off the channel.
    pub fn count(&self) -> (n: u64)
        ensures
            n == self@.taken.len(),
            n == self@.kept.len(),
    {
        self.tally.count()
    }

    /// How many updates the display has refused.
    pub fn failures(&self) -> (n: u64)
        ensures
            n == self@.failures,
            n <= self@.taken.len(),
    {
        self.tally.refused()
    }

    /// The display, to look at.
    pub fn display(&self) -> (display: &W)
        ensures
            *display == self.held(),
            display.accepted() == self@.accepted,
    {
        &self.display
    }

    /// Gives up the writer for its display.
    pub fn into_display(self) -> (display: W)
        ensures
            display == self.held(),
            display.accepted() == self@.accepted,
    {
        self.display
    }

    /// Shows one message that came off the channel, and counts it. The
    /// display's answer is handed back as it is; a refused update is counted
    /// and the writer goes on.
    pub fn consume(&mut self, message: Message) -> (r: Result<(), SinkFailure>)
        requires
            old(self)@.taken.len() < u64::MAX,
        ensures
            final(self).receiver() == old(self).receiver(),
            r is Ok ==> final(self)@ == old(self)@.wrote(
                message.deep_view(),
                shown_at(old(self)@.taken.len(), message.deep_view()),
            ),
            r is Err ==> final(self)@ == old(self)@.lost(message.deep_view()),
    {
        let said = Ghost(message.deep_view());
        let position = self.tally.count();
        let update = ProgressUpdate { position, color: Color::at(position), message };
        let r = self.display.accept(update);
        self.tally.record(said, r.is_ok());
        r
    }

    /// One turn: waits for the next message and shows it.
    ///
    /// A writer whose count is full takes nothing more and answers
    /// `Exhausted`; no other writer does. Otherwise the turn ends when a
    /// message has come, which is then shown or lost, or when the channel has
    /// closed. Which of these happens is up to the sending half.
    pub fn update(&mut self) -> (turn: Turn)
        ensures
            final(self).receiver() == old(self).receiver(),
            turn == Turn::Exhausted <==> old(self)@.taken.len() == u64::MAX,
            final(self)@.taken.len() <= u64::MAX,
            turn == Turn::Exhausted || turn == Turn::EndOfStream ==> final(self)@ == old(self)@,
            turn == Turn::Written ==> final(self)@ == old(self)@.wrote(
                final(self)@.taken.last(),
                shown_at(old(self)@.taken.len(), final(self)@.taken.last()),
            ),
            turn == Turn::Refused ==> final(self)@ == old(self)@.lost(final(self)@.taken.last()),
    {
        take_turn(self)
    }

    /// Takes messages until the channel is closed and empty, and shows each,
    /// in the order in which they come.
    ///
    /// A writer whose count is full takes nothing and answers `Exhausted` at
    /// once. Any other writer takes what comes, one message after another,
    /// and stops in one of two ways: at the end of the stream, with room left
    /// in its count, or when its count has become full. A refused update is
    /// counted and left out; the display holds the others, each at its place
    /// in the count.
    pub fn run(&mut self) -> (stop: Stop)
        ensures
            final(self).receiver() == old(self).receiver(),
            old(self)@.leads_to(final(self)@, framed()),
            old(self)@.taken.len() == u64::MAX ==> final(self)@ == old(self)@,
            stop != Stop::SinkFailure,
            stop == Stop::Exhausted <==> final(self)@.taken.len() == u64::MAX,
            stop == Stop::EndOfStream <==> final(self)@.taken.len() < u64::MAX,
    {
        take_all(self)
    }
}

impl<W: Sink<Message = ProgressUpdate<Message>>, Message: DeepView> Intake for ProgressWriter<
    W,
    Message,
> {
    type Message = Message;

    type Item = Shown<Message::V>;

    open spec fn record(&self) -> WriterView<Message::V, Shown<Message::V>> {
        self@
    }

    open spec fn due() -> spec_fn(nat, Message::V) -> Shown<Message::V> {
        framed()
    }

    open spec fn source(&self) -> Receiver<Message> {
        self.receiver()
    }

    fn inlet(&self) -> (inlet: &Receiver<Message>) {
        &self.receiver
    }

    fn has_room(&self) -> (b: bool) {
        self.tally.count() < u64::MAX
    }

    fn escalates(&self) -> (b: bool) {
        false
    }

    fn take(&mut self, message: Message) -> (r: Result<(), SinkFailure>) {
        self.consume(message)
    }
}

} // verus!
