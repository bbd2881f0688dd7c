//! What holds of a whole session: many reports, one channel, one writer.

use vstd::prelude::*;
use crate::event::Event;
use crate::event::said;
use crate::format::ReportType;
use crate::report::Report;
use crate::progress::Shown;
use crate::progress::framed;
use crate::progress::shown_at;
use crate::turn::WriterView;
use crate::turn::lemma_written_adds_up;
use crate::turn::lemma_written_in_full;
use crate::writer::plain;

verus! {

/// What the events say in the format `T`, in the order of the events: one
/// message for each event that has one.
pub open spec fn messages_of<T: ReportType, E: Event<T>>(events: Seq<E>) -> Seq<
    <E::Message as DeepView>::V,
>
    decreases events.len(),
{
    if events.len() == 0 {
        Seq::empty()
    } else {
        messages_of::<T, E>(events.drop_last()) + said::<T, E>(events.last())
    }
}

/// `after` is the reporter `before` once it has reported `event` with
/// success.
pub open spec fn reported<T: ReportType, R: Report<T>, E: Event<T, Message = R::Message>>(
    before: R,
    event: E,
    after: R,
) -> bool {
    after.delivered() == before.delivered() + said::<T, E>(event)
}

/// Reports keep their order. Let `states` be a reporter before, between and
/// after the successful reports of `events`, one after another. Then it has
/// handed on, behind what it had handed on before, one message for each
/// event that has one and no other, in the order of the reports.
pub proof fn lemma_reports_keep_order<
    T: ReportType,
    R: Report<T>,
    E: Event<T, Message = R::Message>,
>(states: Seq<R>, events: Seq<E>)
    requires
        states.len() == events.len() + 1,
        forall|i: int|
            #![trigger events[i]]
            0 <= i < events.len() ==> reported(states[i], events[i], states[i + 1]),
    ensures
        states.last().delivered() == states[0].delivered() + messages_of::<T, E>(events),
    decreases events.len(),
{
    if events.len() == 0 {
        assert(states.last().delivered() =~= states[0].delivered() + messages_of::<T, E>(
            events,
        ));
    } else {
        let n = events.len() - 1;
        let earlier = events.drop_last();
        assert forall|i: int| #![trigger earlier[i]] 0 <= i < earlier.len() implies reported(
            states.take(n + 1)[i],
            earlier[i],
            states.take(n + 1)[i + 1],
        ) by {
            assert(earlier[i] == events[i]);
        }
        lemma_reports_keep_order::<T, R, E>(states.take(n + 1), earlier);
        assert(states.take(n + 1).last() == states[n]);
        assert(reported(states[n], events[n], states[n + 1]));
        assert(states.last().delivered() =~= states[0].delivered() + messages_of::<T, E>(
            events,
        ));
    }
}

/// A writer loses nothing and doubles nothing. Let `arrived` be what came
/// off the channel between `before` and `after`. Then the writer has counted
/// each of these messages once, as written or as refused, and if its sink
/// refused none, the sink holds them all behind what it held, in the order
/// in which they came.
pub proof fn lemma_writer_keeps_order<V>(
    before: WriterView<V, V>,
    after: WriterView<V, V>,
    arrived: Seq<V>,
)
    requires
        before.leads_to(after, plain()),
        after.taken == before.taken + arrived,
    ensures
        after.taken.len() == before.taken.len() + arrived.len(),
        after.accepted.len() + after.failures == before.accepted.len() + before.failures
            + arrived.len(),
        after.failures == before.failures ==> after.accepted == before.accepted + arrived,
{
    let kept = before.kept_since(after);
    assert(before.taken_since(after) =~= arrived);
    lemma_written_adds_up(arrived, kept, before.taken.len(), plain::<V>());
    if after.failures == before.failures {
        lemma_written_in_full(arrived, kept, before.taken.len(), plain::<V>());
        assert(after.accepted =~= before.accepted + arrived);
    }
}

/// A progress display shows each message at its place. Let `arrived` be what
/// came off the channel between `before` and `after`. If the display refused
/// none of it, the display holds, behind what it held, one update for each
/// of these messages, in the order in which they came, each with the number
/// of messages taken before it as its position and the colour of that
/// number.
pub proof fn lemma_display_keeps_count<V>(
    before: WriterView<V, Shown<V>>,
    after: WriterView<V, Shown<V>>,
    arrived: Seq<V>,
)
    requires
        before.leads_to(after, framed()),
        after.taken == before.taken + arrived,
        after.failures == before.failures,
    ensures
        after.accepted == before.accepted + Seq::new(
            arrived.len(),
            |i: int| shown_at((before.taken.len() + i) as nat, arrived[i]),
        ),
{
    let kept = before.kept_since(after);
    assert(before.taken_since(after) =~= arrived);
    lemma_written_in_full(arrived, kept, before.taken.len(), framed::<V>());
    assert(after.accepted =~= before.accepted + Seq::new(
        arrived.len(),
        |i: int| shown_at((before.taken.len() + i) as nat, arrived[i]),
    ));
}

/// From report to sink, the order holds. Let a reporter report `events` with
/// success, and let the channel hand its writer, between `before` and
/// `after`, what the reporter handed on in that time, as it was handed on.
/// If the sink refuses none of it, the sink then holds, behind what it held,
/// the messages of `events` in the order of the reports.
pub proof fn lemma_order_holds_from_report_to_sink<
    T: ReportType,
    R: Report<T>,
    E: Event<T, Message = R::Message>,
>(
    states: Seq<R>,
    events: Seq<E>,
    before: WriterView<<R::Message as DeepView>::V, <R::Message as DeepView>::V>,
    after: WriterView<<R::Message as DeepView>::V, <R::Message as DeepView>::V>,
)
    requires
        states.len() == events.len() + 1,
        forall|i: int|
            #![trigger events[i]]
            0 <= i < events.len() ==> reported(states[i], events[i], states[i + 1]),
        before.leads_to(after, plain()),
        after.taken == before.taken + states.last().delivered().skip(
            states[0].delivered().len() as int,
        ),
        after.failures == before.failures,
    ensures
        after.accepted == before.accepted + messages_of::<T, E>(events),
{
    lemma_reports_keep_order::<T, R, E>(states, events);
    let sent = states.last().delivered().skip(states[0].delivered().len() as int);
    assert(sent =~= messages_of::<T, E>(events));
    lemma_writer_keeps_order(before, after, sent);
}

} // verus!
