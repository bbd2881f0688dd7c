use air::{
    DirectReporter, Event, GenericReporter, Greeting, HumanOutput, JsonOutput, MemorySink,
    NullSink, OutputDisabled, Report, ReportError, ReportType, Sink, SinkFailure,
};
use std::sync::mpsc::{channel, TryRecvError};

struct Shout;

impl ReportType for Shout {}

struct Tick {
    round: u32,
}

impl Event<Shout> for Tick {
    type Message = String;

    fn supports(&self) -> bool {
        self.round > 0
    }

    fn render(&self) -> Option<String> {
        if self.round % 2 == 0 {
            return None;
        }
        Some(format!("ROUND {}", self.round))
    }
}

/// Counts every call and takes nothing.
struct Watched {
    calls: usize,
}

impl Sink for Watched {
    type Message = ();

    fn accept(&mut self, _message: ()) -> Result<(), SinkFailure> {
        self.calls += 1;
        Err(SinkFailure)
    }
}

/// Takes messages of at most `limit` bytes and refuses longer ones.
struct Narrow {
    limit: usize,
    lines: Vec<String>,
}

impl Sink for Narrow {
    type Message = String;

    fn accept(&mut self, message: String) -> Result<(), SinkFailure> {
        if message.len() > self.limit {
            return Err(SinkFailure);
        }
        self.lines.push(message);
        Ok(())
    }
}

fn greet(name: &str) -> Greeting {
    Greeting { name: name.to_string() }
}

#[test]
fn one_event_puts_one_message_on_the_channel() {
    let (sender, receiver) = channel();
    let mut reporter = GenericReporter::<HumanOutput, String>::new(sender);
    assert_eq!(reporter.report_event(greet("Christopher")), Ok(()));
    assert_eq!(receiver.try_recv().ok(), Some("Hi Christopher 👋".to_string()));
    assert!(receiver.try_recv().is_err());
}

#[test]
fn structured_messages_travel_too() {
    let (sender, receiver) = channel();
    let mut reporter = GenericReporter::<JsonOutput, Vec<(String, String)>>::new(sender);
    assert_eq!(reporter.report_event(greet("Christopher")), Ok(()));
    drop(reporter);
    assert_eq!(
        receiver.recv().ok(),
        Some(vec![("name".to_string(), "Christopher".to_string())])
    );
    assert!(receiver.recv().is_err());
}

#[test]
fn messages_are_sent_in_the_order_of_the_reports() {
    let (sender, receiver) = channel();
    let mut reporter = GenericReporter::<HumanOutput, String>::new(sender);
    for name in ["Ada", "Grace", "Edsger", "Barbara"] {
        assert_eq!(reporter.report_event(greet(name)), Ok(()));
    }
    drop(reporter);
    let seen: Vec<String> = receiver.iter().collect();
    assert_eq!(seen, vec!["Hi Ada 👋", "Hi Grace 👋", "Hi Edsger 👋", "Hi Barbara 👋"]);
}

#[test]
fn a_dropped_receiver_is_a_delivery_failure() {
    let (sender, receiver) = channel::<String>();
    let mut reporter = GenericReporter::<HumanOutput, String>::new(sender);
    drop(receiver);
    assert_eq!(reporter.report_event(greet("Christopher")), Err(ReportError::DeliveryFailure));
    assert_eq!(reporter.report_event(greet("Christopher")), Err(ReportError::DeliveryFailure));
}

#[test]
fn forward_sends_a_message_as_it_is() {
    let (sender, receiver) = channel();
    let mut reporter = GenericReporter::<HumanOutput, String>::new(sender);
    assert_eq!(reporter.forward("ready".to_string()), Ok(()));
    assert_eq!(receiver.try_recv().ok(), Some("ready".to_string()));
    drop(receiver);
    assert_eq!(reporter.forward("late".to_string()), Err(ReportError::DeliveryFailure));
}

#[test]
fn an_unsupported_event_never_reaches_the_channel() {
    let (sender, receiver) = channel();
    let mut reporter = GenericReporter::<Shout, String>::new(sender);
    assert_eq!(reporter.report_event(Tick { round: 0 }), Err(ReportError::UnsupportedFormat));
    assert!(receiver.try_recv().is_err());
    assert_eq!(reporter.report_event(Tick { round: 3 }), Ok(()));
    assert_eq!(receiver.try_recv().ok(), Some("ROUND 3".to_string()));
}

#[test]
fn an_unsupported_event_is_turned_away_before_the_channel_is_tried() {
    let (sender, receiver) = channel();
    let mut reporter = GenericReporter::<Shout, String>::new(sender);
    drop(receiver);
    assert_eq!(reporter.report_event(Tick { round: 0 }), Err(ReportError::UnsupportedFormat));
    assert_eq!(reporter.report_event(Tick { round: 1 }), Err(ReportError::DeliveryFailure));
}

#[test]
fn an_unsupported_event_never_reaches_the_sink() {
    let mut reporter = DirectReporter::<Shout, MemorySink<String>>::new(MemorySink::new());
    assert_eq!(reporter.report_event(Tick { round: 0 }), Err(ReportError::UnsupportedFormat));
    assert_eq!(reporter.sink().len(), 0);
    assert_eq!(reporter.report_event(Tick { round: 9 }), Ok(()));
    assert_eq!(reporter.report_event(Tick { round: 0 }), Err(ReportError::UnsupportedFormat));
    assert_eq!(reporter.into_sink().into_messages(), vec!["ROUND 9"]);
}

#[test]
fn a_direct_reporter_writes_before_it_returns() {
    let mut reporter = DirectReporter::<HumanOutput, MemorySink<String>>::new(MemorySink::new());
    assert_eq!(reporter.report_event(greet("Ada")), Ok(()));
    assert_eq!(reporter.sink().messages(), &vec!["Hi Ada 👋".to_string()]);
    assert_eq!(reporter.report_event(greet("Grace")), Ok(()));
    assert_eq!(reporter.sink().len(), 2);
    assert_eq!(reporter.into_sink().into_messages(), vec!["Hi Ada 👋", "Hi Grace 👋"]);
}

#[test]
fn a_direct_reporter_keeps_what_its_sink_held() {
    let mut sink = MemorySink::new();
    assert_eq!(sink.accept("earlier".to_string()), Ok(()));
    let mut reporter = DirectReporter::<HumanOutput, MemorySink<String>>::new(sink);
    assert_eq!(reporter.report_event(greet("Ada")), Ok(()));
    assert_eq!(reporter.into_sink().into_messages(), vec!["earlier", "Hi Ada 👋"]);
}

#[test]
fn a_refusing_sink_is_a_sink_failure() {
    let sink = Narrow { limit: 12, lines: Vec::new() };
    let mut reporter = DirectReporter::<HumanOutput, Narrow>::new(sink);
    assert_eq!(reporter.report_event(greet("Christopher")), Err(ReportError::SinkFailure));
    assert_eq!(reporter.report_event(greet("Al")), Ok(()));
    assert_eq!(reporter.report_event(greet("Bartholomew")), Err(ReportError::SinkFailure));
    assert_eq!(reporter.into_sink().lines, vec!["Hi Al 👋"]);
}

#[test]
fn a_disabled_direct_reporter_writes_nothing() {
    let mut reporter = DirectReporter::disabled();
    assert_eq!(reporter.report_event(greet("Christopher")), Ok(()));
    assert_eq!(reporter.report_event(Tick { round: 0 }), Ok(()));
    assert_eq!(reporter.report_event(42u64), Ok(()));
    assert_eq!(std::mem::size_of_val(reporter.sink()), 0);
    assert_eq!(std::mem::size_of_val(&reporter.into_sink()), 0);
}

#[test]
fn a_disabled_direct_reporter_leaves_any_sink_as_it_was() {
    let mut sink = MemorySink::new();
    assert_eq!(sink.accept(()), Ok(()));
    assert_eq!(sink.accept(()), Ok(()));
    let mut reporter = DirectReporter::<OutputDisabled, MemorySink<()>>::new(sink);
    assert_eq!(reporter.report_event(greet("Christopher")), Ok(()));
    assert_eq!(reporter.report_event(Tick { round: 1 }), Ok(()));
    assert_eq!(reporter.report_event("anything"), Ok(()));
    assert_eq!(reporter.sink().len(), 2);
    assert_eq!(reporter.into_sink().into_messages(), vec![(), ()]);
}

#[test]
fn a_disabled_direct_reporter_never_calls_its_sink() {
    let mut reporter = DirectReporter::<OutputDisabled, Watched>::new(Watched { calls: 0 });
    for round in 0..5 {
        assert_eq!(reporter.report_event(Tick { round }), Ok(()));
    }
    assert_eq!(reporter.report_event(greet("Christopher")), Ok(()));
    assert_eq!(reporter.into_sink().calls, 0);
}

#[test]
fn a_disabled_channel_reporter_sends_nothing() {
    let (sender, receiver) = channel::<()>();
    let mut reporter = GenericReporter::<OutputDisabled, ()>::new(sender);
    assert_eq!(reporter.report_event(greet("Christopher")), Ok(()));
    assert_eq!(reporter.report_event(1u8), Ok(()));
    assert_eq!(receiver.try_recv(), Err(TryRecvError::Empty));
    drop(receiver);
    assert_eq!(reporter.report_event(greet("Christopher")), Ok(()));
}

#[test]
fn an_event_that_says_nothing_is_taken_and_nothing_is_handed_on() {
    let (sender, receiver) = channel();
    let mut reporter = GenericReporter::<Shout, String>::new(sender);
    assert_eq!(reporter.report_event(Tick { round: 4 }), Ok(()));
    assert_eq!(receiver.try_recv(), Err(TryRecvError::Empty));
    let mut reporter = DirectReporter::<Shout, Narrow>::new(Narrow { limit: 0, lines: Vec::new() });
    assert_eq!(reporter.report_event(Tick { round: 4 }), Ok(()));
    assert_eq!(reporter.report_event(Tick { round: 5 }), Err(ReportError::SinkFailure));
    assert!(reporter.into_sink().lines.is_empty());
}

#[test]
fn a_new_reporter_keeps_the_sender_given_and_sends_nothing() {
    let (sender, receiver) = channel::<String>();
    let reporter = GenericReporter::<HumanOutput, String>::new(sender);
    assert_eq!(receiver.try_recv(), Err(TryRecvError::Empty));
    drop(reporter);
    assert_eq!(receiver.try_recv(), Err(TryRecvError::Disconnected));
}

#[test]
fn a_new_direct_reporter_keeps_the_sink_given() {
    let mut sink = MemorySink::new();
    assert_eq!(sink.accept("earlier".to_string()), Ok(()));
    let reporter = DirectReporter::<HumanOutput, MemorySink<String>>::new(sink);
    assert_eq!(reporter.sink().messages(), &vec!["earlier".to_string()]);
    assert_eq!(reporter.into_sink().into_messages(), vec!["earlier"]);
}

#[test]
fn a_reporter_on_a_null_sink_writes_nothing_in_any_format() {
    let mut reporter = DirectReporter::<HumanOutput, NullSink<String>>::new(NullSink::new());
    assert_eq!(reporter.report_event(greet("Christopher")), Ok(()));
    assert_eq!(std::mem::size_of_val(&reporter.into_sink()), 0);
}

#[test]
fn a_null_sink_takes_any_message_and_holds_none() {
    let mut sink = NullSink::<String>::new();
    assert_eq!(sink.accept("gone".to_string()), Ok(()));
    assert_eq!(sink.accept(String::new()), Ok(()));
    assert_eq!(std::mem::size_of_val(&sink), 0);
}

#[test]
fn a_memory_sink_holds_its_messages_in_order() {
    let mut sink = MemorySink::new();
    assert_eq!(sink.len(), 0);
    assert_eq!(sink.accept(3u8), Ok(()));
    assert_eq!(sink.accept(1u8), Ok(()));
    assert_eq!(sink.accept(2u8), Ok(()));
    assert_eq!(sink.len(), 3);
    assert_eq!(sink.messages(), &vec![3u8, 1, 2]);
    assert_eq!(sink.into_messages(), vec![3u8, 1, 2]);
}

#[test]
fn the_channel_answer_decides_the_report() {
    assert_eq!(ReportError::after_send::<String>(Ok(())), Ok(()));
    assert_eq!(
        ReportError::after_send(Err("undelivered".to_string())),
        Err(ReportError::DeliveryFailure)
    );
}

#[test]
fn the_sink_answer_decides_the_report() {
    assert_eq!(ReportError::after_write(Ok(())), Ok(()));
    assert_eq!(ReportError::after_write(Err(SinkFailure)), Err(ReportError::SinkFailure));
}
