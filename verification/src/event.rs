//! Events and their messages.

use vstd::prelude::*;
use crate::format::OutputDisabled;
use crate::format::ReportType;

verus! {

/// An event that can be rendered in the format `T`.
///
/// A type implements `Event` once for each format in which its values can be
/// reported. The rendering is a function of the event alone: `message` names
/// it, and `render` computes it. An event may have nothing to say in a
/// format: its rendering is then `None`, and a reporter hands nothing on.
pub trait Event<T: ReportType> {
    /// The shape of this event's messages in the format `T`.
    type Message: DeepView + Send;

    /// Whether this value has a rendering in the format `T`. A reporter turns
    /// away an event that has none before it renders anything.
    open spec fn supported(&self) -> bool {
        true
    }

    /// What this event says in the format `T`, or `None` where it says
    /// nothing. An impl states it by giving this function a body of its own;
    /// left as it is, nothing is known of it.
    open spec fn message(&self) -> Option<<Self::Message as DeepView>::V> {
        arbitrary()
    }

    /// Computes `supported`.
    fn supports(&self) -> (b: bool)
        ensures
            b == self.supported(),
    ;

    /// Builds the message. The event is left as it was.
    fn render(&self) -> (m: Option<Self::Message>)
        ensures
            m.deep_view() == self.message(),
    ;
}

/// What a reporter hands on for `event`: its message, or nothing where it
/// has none.
pub open spec fn said<T: ReportType, E: Event<T>>(event: E) -> Seq<<E::Message as DeepView>::V> {
    match event.message() {
        Some(message) => seq![message],
        None => Seq::empty(),
    }
}

/// With output disabled, every event is taken and none says anything.
impl<E> Event<OutputDisabled> for E {
    type Message = ();

    open spec fn message(&self) -> Option<()> {
        None
    }

    fn supports(&self) -> (b: bool) {
        true
    }

    fn render(&self) -> (m: Option<()>) {
        None
    }
}

/// Rendering is repeatable: whatever two calls of `render` return for one
/// event, the two results say the same.
pub proof fn lemma_render_is_repeatable<T: ReportType, E: Event<T>>(
    event: &E,
    first: Option<E::Message>,
    second: Option<E::Message>,
)
    requires
        call_ensures(E::render, (event,), first),
        call_ensures(E::render, (event,), second),
    ensures
        first.deep_view() == second.deep_view(),
        first.deep_view() == event.message(),
{
}

} // verus!
