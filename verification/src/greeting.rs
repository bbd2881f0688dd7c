//! A greeting: an event with a rendering for a person and a structured one.

use vstd::prelude::*;
use crate::event::Event;
use crate::format::HumanOutput;
use crate::format::JsonOutput;

verus! {

/// Somebody is greeted by name.
#[derive(Debug, PartialEq, Eq)]
pub struct Greeting {
    /// Whom to greet.
    pub name: String,
}

/// For a person, a greeting is a line of text: `Hi`, the name, and a wave.
impl Event<HumanOutput> for Greeting {
    type Message = String;

    open spec fn message(&self) -> Option<Seq<char>> {
        Some("Hi "@ + self.name@ + " 👋"@)
    }

    fn supports(&self) -> (b: bool) {
        true
    }

    fn render(&self) -> (m: Option<String>) {
        let mut text = String::from_str("Hi ");
        text.append(self.name.as_str());
        text.append(" 👋");
        Some(text)
    }
}

/// As structured output, a greeting is one key, `name`, with the name as its
/// value.
impl Event<JsonOutput> for Greeting {
    type Message = Vec<(String, String)>;

    open spec fn message(&self) -> Option<Seq<(Seq<char>, Seq<char>)>> {
        Some(seq![("name"@, self.name@)])
    }

    fn supports(&self) -> (b: bool) {
        true
    }

    fn render(&self) -> (m: Option<Vec<(String, String)>>) {
        let mut fields: Vec<(String, String)> = Vec::new();
        fields.push((String::from_str("name"), self.name.clone()));
        assert(fields.deep_view() =~= seq![("name"@, self.name@)]);
        Some(fields)
    }
}

} // verus!
