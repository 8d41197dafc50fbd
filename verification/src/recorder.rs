//! The simplest complete widget: it records what it processes.
//!
//! A [`Recorder`] keeps every message its update function was handed, in
//! order, so its processed history is observable at run time. It serves as
//! the reference [`Widget`] implementation and as a test double for the
//! dispatch engine.

use vstd::prelude::*;

use crate::relm::Relm;
use crate::toolkit::Container;
use crate::widget::DisplayVariant;
use crate::widget::Widget;

verus! {

/// The identifier of every recorder's container; a host that needs real
/// scene-graph identifiers builds its own widget type.
pub const RECORDER_CONTAINER_ID: u64 = 0;

/// A widget whose model is the list of messages it has processed.
pub struct Recorder<M> {
    /// Every message the dispatch loop applied, oldest first.
    pub received: Vec<M>,
    /// The recorder's container.
    pub root: Container,
}

impl<M: Clone + DisplayVariant> Widget<M> for Recorder<M> {
    open spec fn processed(&self) -> Seq<M> {
        self.received@
    }

    open spec fn container_view(&self) -> Container {
        self.root
    }

    fn new(_relm: &mut Relm<M>) -> (w: Self) {
        Recorder { received: Vec::new(), root: Container::new(RECORDER_CONTAINER_ID) }
    }

    fn container(&self) -> (c: &Container) {
        &self.root
    }

    fn container_mut(&mut self) -> (c: &mut Container) {
        &mut self.root
    }

    fn update(&mut self, message: M) {
        self.received.push(message);
    }
}

} // verus!
