use relm::Component;
use relm::Container;
use relm::ContainerWidget;
use relm::DisplayVariant;
use relm::Handle;
use relm::Recorder;
use relm::RECORDER_CONTAINER_ID;

#[derive(Clone, Debug, PartialEq, Eq)]
enum Msg {
    Tick,
}

impl DisplayVariant for Msg {
    fn display_variant(&self) -> &'static str {
        "Tick"
    }
}

#[test]
fn new_container_is_empty_and_hidden() {
    let c = Container::new(7);
    assert_eq!(c.id, 7);
    assert!(c.children.is_empty());
    assert!(!c.shown);
}

#[test]
fn add_and_remove_children_by_identifier() {
    let mut c = Container::new(1);
    c.add(10);
    c.add(11);
    c.add(10);
    assert_eq!(c.children, vec![10, 11, 10]);
    assert!(c.has_child(10));
    c.remove(10);
    assert_eq!(c.children, vec![11, 10]);
    c.remove(10);
    assert_eq!(c.children, vec![11]);
    assert!(!c.has_child(10));
}

#[test]
fn removing_an_absent_child_changes_nothing() {
    let mut c = Container::new(1);
    c.add(10);
    c.remove(99);
    assert_eq!(c.children, vec![10]);
}

#[test]
fn show_all_marks_the_container_shown() {
    let mut c = Container::new(1);
    assert!(!c.shown);
    c.show_all();
    assert!(c.shown);
}

#[test]
fn add_widget_attaches_and_shows_the_child() {
    let handle = Handle::new(false);
    let mut parent = Container::new(1);
    let component: Component<Msg, Recorder<Msg>> = parent.add_widget(&handle);
    assert_eq!(parent.children, vec![RECORDER_CONTAINER_ID]);
    assert!(component.widget.root.shown);
    assert!(component.widget.received.is_empty());
}

#[test]
fn remove_widget_detaches_the_child() {
    let handle = Handle::new(false);
    let mut parent = Container::new(1);
    let component: Component<Msg, Recorder<Msg>> = parent.add_widget(&handle);
    assert_eq!(parent.children.len(), 1);
    parent.remove_widget(component);
    assert!(parent.children.is_empty());
}

#[test]
fn removing_a_never_added_component_leaves_other_children() {
    let handle = Handle::new(false);
    let mut parent = Container::new(1);
    parent.add(42);
    let component: Component<Msg, Recorder<Msg>> = relm::create_widget(&handle);
    parent.remove_widget(component);
    assert_eq!(parent.children, vec![42]);
}
