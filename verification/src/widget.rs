//! The capability contracts of user-supplied code.
//!
//! A message type implements [`DisplayVariant`] so diagnostics can name it
//! without printing its payload. A component's widget implements
//! [`Widget`]: it is built once from its [`crate::Relm`] capability, owns
//! one [`Container`], and applies each message to its model through
//! `update`, which always runs to completion once started.

use vstd::prelude::*;

use crate::relm::Relm;
use crate::toolkit::Container;

verus! {

/// A short, stable, human-readable tag per message variant, for diagnostics
/// only; it names the variant, not the payload.
pub trait DisplayVariant {
    /// The tag of this message's variant.
    fn display_variant(&self) -> &'static str;
}

/// One component's widget: its model, its container, and its update
/// function. The framework serializes all `update` calls of one widget, so
/// an implementation never observes two of them in flight at once.
pub trait Widget<M>: Sized {
    /// The messages this widget has been handed so far, in the order the
    /// dispatch loop applied them.
    spec fn processed(&self) -> Seq<M>;

    /// The widget's container as the scene-graph model sees it.
    spec fn container_view(&self) -> Container;

    /// Builds the widget. It must not block; it may wire producers onto the
    /// component's stream through `relm`, but performs no toolkit mutation
    /// beyond building its own container tree. A fresh widget has processed
    /// nothing.
    fn new(relm: &mut Relm<M>) -> (w: Self)
        ensures
            w.processed() == Seq::<M>::empty(),
    ;

    /// The widget's container.
    fn container(&self) -> (c: &Container)
        ensures
            *c == self.container_view(),
    ;

    /// The widget's container, for the composition functions that own the
    /// right to mutate it; nothing else about the widget changes while the
    /// borrow lives.
    fn container_mut(&mut self) -> (c: &mut Container)
        ensures
            *c == old(self).container_view(),
            final(self).container_view() == *final(c),
            final(self).processed() == old(self).processed(),
    ;

    /// Applies one message to the model, synchronously and to completion.
    /// Exactly this message is appended to the processed history.
    fn update(&mut self, message: M)
        ensures
            final(self).processed() == old(self).processed().push(message),
    ;
}

} // verus!
