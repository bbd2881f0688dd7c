use air::{Event, Greeting, HumanOutput, JsonOutput, OutputDisabled, ReportType};

struct Shout;

impl ReportType for Shout {}

struct Tick {
    round: u32,
}

impl Event<Shout> for Tick {
    type Message = String;

    fn supports(&self) -> bool {
        self.round > 0
    }

    fn render(&self) -> Option<String> {
        if self.round % 2 == 0 {
            return None;
        }
        Some(format!("ROUND {}", self.round))
    }
}

fn christopher() -> Greeting {
    Greeting { name: "Christopher".to_string() }
}

#[test]
fn greeting_for_a_person() {
    let message = <Greeting as Event<HumanOutput>>::render(&christopher());
    assert_eq!(message, Some("Hi Christopher 👋".to_string()));
}

#[test]
fn greeting_as_structured_output() {
    let message = <Greeting as Event<JsonOutput>>::render(&christopher());
    assert_eq!(message, Some(vec![("name".to_string(), "Christopher".to_string())]));
}

#[test]
fn greeting_with_output_disabled_says_nothing() {
    let event = christopher();
    assert!(<Greeting as Event<OutputDisabled>>::supports(&event));
    assert_eq!(<Greeting as Event<OutputDisabled>>::render(&event), None);
}

#[test]
fn greeting_with_an_empty_name() {
    let event = Greeting { name: String::new() };
    assert_eq!(<Greeting as Event<HumanOutput>>::render(&event), Some("Hi  👋".to_string()));
    assert_eq!(
        <Greeting as Event<JsonOutput>>::render(&event),
        Some(vec![("name".to_string(), String::new())])
    );
}

#[test]
fn greeting_keeps_the_name_as_it_is() {
    let event = Greeting { name: "Zoë \"Z\" O'Neil".to_string() };
    assert_eq!(
        <Greeting as Event<HumanOutput>>::render(&event),
        Some("Hi Zoë \"Z\" O'Neil 👋".to_string())
    );
    assert_eq!(
        <Greeting as Event<JsonOutput>>::render(&event),
        Some(vec![("name".to_string(), "Zoë \"Z\" O'Neil".to_string())])
    );
}

#[test]
fn greeting_supports_both_formats() {
    let event = christopher();
    assert!(<Greeting as Event<HumanOutput>>::supports(&event));
    assert!(<Greeting as Event<JsonOutput>>::supports(&event));
}

#[test]
fn rendering_twice_gives_the_same_message() {
    let event = christopher();
    let first = <Greeting as Event<HumanOutput>>::render(&event);
    let second = <Greeting as Event<HumanOutput>>::render(&event);
    assert_eq!(first.map(String::into_bytes), second.map(String::into_bytes));
    let first = <Greeting as Event<JsonOutput>>::render(&event);
    let second = <Greeting as Event<JsonOutput>>::render(&event);
    assert_eq!(first, second);
    assert_eq!(event, christopher());
}

#[test]
fn any_value_is_an_event_with_output_disabled() {
    assert!(<u8 as Event<OutputDisabled>>::supports(&7));
    assert_eq!(<Tick as Event<OutputDisabled>>::render(&Tick { round: 0 }), None);
    assert_eq!(<u8 as Event<OutputDisabled>>::render(&7), None);
}

#[test]
fn an_event_of_the_caller_says_what_it_supports() {
    assert!(!<Tick as Event<Shout>>::supports(&Tick { round: 0 }));
    assert!(<Tick as Event<Shout>>::supports(&Tick { round: 3 }));
    assert_eq!(<Tick as Event<Shout>>::render(&Tick { round: 3 }), Some("ROUND 3".to_string()));
}

#[test]
fn an_event_of_the_caller_may_say_nothing() {
    assert!(<Tick as Event<Shout>>::supports(&Tick { round: 4 }));
    assert_eq!(<Tick as Event<Shout>>::render(&Tick { round: 4 }), None);
}
