//! Output formats.

use vstd::prelude::*;

verus! {

/// Marks a type as the tag of one output format.
///
/// A tag carries no data and is never built: it only tells apart, in the types
/// of events and reporters, the ways in which an event can be rendered. A new
/// format is a new tag, together with the `Event` impls of the events that can
/// be rendered in it.
pub trait ReportType {
}

/// Text meant for a person.
pub struct HumanOutput;

/// Structured output, as keys with their values.
pub struct JsonOutput;

/// No output at all.
pub struct OutputDisabled;

impl ReportType for HumanOutput {
}

impl ReportType for JsonOutput {
}

impl ReportType for OutputDisabled {
}

} // verus!
