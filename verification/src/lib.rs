//! A reactive component model in the Elm style: a model, an update function
//! and a message stream per component, driven by a single-threaded
//! cooperative scheduler that also owns the toolkit's widgets.
//!
//! The heart of the crate is the dispatch engine: [`EventStream`] queues the
//! messages of one component, [`Relm`] wires asynchronous producers onto that
//! queue through [`Connector`]s, and the dispatch loop of a [`Component`]
//! hands every queued message to the user's update function, one at a time
//! and in emission order. Composition attaches a child component's container
//! into a parent container and detaches it again.
//!
//! The windowing toolkit itself is out of scope: it appears only as the
//! [`Toolkit`] startup capability and the [`Container`] scene-graph model
//! that the composition functions maintain.

mod clock;
mod component;
mod diagnostics;
mod error;
mod recorder;
mod relm;
mod stream;
mod toolkit;
mod widget;

pub use component::create_widget;
pub use component::lemma_updates_serialized;
pub use component::Component;
pub use component::ContainerWidget;

pub use diagnostics::slow_update_warning;
pub use diagnostics::truncate_label;
pub use diagnostics::truncated_label;
pub use diagnostics::SlowUpdateReport;
pub use diagnostics::LABEL_LIMIT;
pub use diagnostics::SLOW_UPDATE_THRESHOLD_MS;
pub use error::Error;
pub use recorder::Recorder;
pub use recorder::RECORDER_CONTAINER_ID;
pub use relm::lemma_deterministic_connector;
pub use relm::lemma_ok_prefix_len_bound;
pub use relm::maps_ok_prefix;
pub use relm::ok_prefix_len;
pub use relm::Connector;
pub use relm::Handle;
pub use relm::Relm;
pub use relm::RunOutcome;
pub use stream::EventStream;
pub use toolkit::Container;
pub use toolkit::Toolkit;
pub use widget::DisplayVariant;
pub use widget::Widget;

