use relm::DisplayVariant;
use relm::EventStream;
use relm::Handle;
use relm::Relm;

#[derive(Clone, Debug, PartialEq, Eq)]
enum Msg {
    N(i32),
}

impl DisplayVariant for Msg {
    fn display_variant(&self) -> &'static str {
        "N"
    }
}

fn fresh_relm() -> Relm<Msg> {
    Relm { handle: Handle::new(false), stream: EventStream::new() }
}

#[test]
fn connector_maps_items_in_order() {
    let mut relm = fresh_relm();
    let mut source: Vec<Result<i32, ()>> = vec![Ok(1), Ok(2), Ok(3)];
    let unit = relm.connect(&mut source, |i: i32| Msg::N(i));
    assert_eq!(unit.messages, vec![Msg::N(1), Msg::N(2), Msg::N(3)]);
    assert!(!unit.failed);
    assert!(source.is_empty());
    relm.exec(unit);
    assert_eq!(relm.stream.pop(), Some(Msg::N(1)));
    assert_eq!(relm.stream.pop(), Some(Msg::N(2)));
    assert_eq!(relm.stream.pop(), Some(Msg::N(3)));
    assert_eq!(relm.stream.pop(), None);
}

#[test]
fn connect_exec_emits_directly_onto_the_stream() {
    let mut relm = fresh_relm();
    relm.stream.emit(Msg::N(0));
    let mut source: Vec<Result<i32, ()>> = vec![Ok(1), Ok(2), Ok(3)];
    relm.connect_exec(&mut source, |i: i32| Msg::N(i));
    assert_eq!(relm.stream.pop(), Some(Msg::N(0)));
    assert_eq!(relm.stream.pop(), Some(Msg::N(1)));
    assert_eq!(relm.stream.pop(), Some(Msg::N(2)));
    assert_eq!(relm.stream.pop(), Some(Msg::N(3)));
    assert_eq!(relm.stream.pop(), None);
}

#[test]
fn producer_failure_ends_the_unit_and_is_recorded() {
    let relm = fresh_relm();
    let mut source: Vec<Result<i32, &'static str>> = vec![Ok(1), Ok(2), Err("broken"), Ok(4)];
    let unit = relm.connect(&mut source, |i: i32| Msg::N(i));
    assert_eq!(unit.messages, vec![Msg::N(1), Msg::N(2)]);
    assert!(unit.failed);
    assert!(source.is_empty());
}

#[test]
fn failing_producer_still_emits_its_successful_prefix() {
    let mut relm = fresh_relm();
    let mut source: Vec<Result<i32, &'static str>> = vec![Ok(9), Err("broken")];
    relm.connect_exec(&mut source, |i: i32| Msg::N(i));
    assert_eq!(relm.stream.pop(), Some(Msg::N(9)));
    assert_eq!(relm.stream.pop(), None);
}

#[test]
fn empty_producer_yields_empty_unit() {
    let relm = fresh_relm();
    let mut source: Vec<Result<i32, ()>> = Vec::new();
    let unit = relm.connect(&mut source, |i: i32| Msg::N(i));
    assert!(unit.messages.is_empty());
    assert!(!unit.failed);
}

#[test]
fn immediately_failing_producer_emits_nothing() {
    let relm = fresh_relm();
    let mut source: Vec<Result<i32, ()>> = vec![Err(()), Ok(1)];
    let unit = relm.connect(&mut source, |i: i32| Msg::N(i));
    assert!(unit.messages.is_empty());
    assert!(unit.failed);
}
