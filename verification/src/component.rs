//! Components and the dispatch loop.
//!
//! A [`Component`] pairs one widget with the [`EventStream`] it consumes.
//! [`create_widget`] builds the widget from a fresh [`Relm`] capability;
//! [`Component::dispatch_pending`] is the dispatch loop: it drains the
//! stream, handing every message to the widget's update function exactly
//! once, in emission order, one at a time and to completion — the invariant
//! that makes toolkit mutation safe without locking, since everything runs
//! on the scheduler's single thread. [`ContainerWidget`] composes
//! components: it attaches a child component's container into a parent
//! container and detaches it again.

use vstd::prelude::*;

use crate::clock;
use crate::diagnostics::lemma_truncated_label_bound;
use crate::diagnostics::slow_update_warning;
use crate::diagnostics::SlowUpdateReport;
use crate::diagnostics::LABEL_LIMIT;
use crate::diagnostics::SLOW_UPDATE_THRESHOLD_MS;
use crate::relm::Handle;
use crate::relm::Relm;
use crate::stream::EventStream;
use crate::toolkit::Container;
use crate::widget::DisplayVariant;
use crate::widget::Widget;

verus! {

/// The externally visible unit of composition: one widget together with
/// the stream its dispatch loop consumes. Emitters reach the queue through
/// the component that owns it.
pub struct Component<M, W> {
    /// The component's message queue.
    pub stream: EventStream<M>,
    /// The component's widget.
    pub widget: W,
}

impl<M, W> Component<M, W> {
    /// The component's stream, for wiring further emitters to it.
    pub fn stream(&self) -> (s: &EventStream<M>)
        ensures
            *s == self.stream,
    {
        &self.stream
    }
}

/// Builds one component: a fresh, empty stream, a [`Relm`] capability over
/// it, and the widget the capability's owner constructs. The widget starts
/// with an empty processed history; whatever its constructor emitted or
/// wired up is pending on the component's stream.
pub fn create_widget<D, M>(handle: &Handle) -> (c: Component<M, D>)
    where D: Widget<M>, M: Clone + DisplayVariant,
    ensures
        c.widget.processed() == Seq::<M>::empty(),
{
    let mut relm = Relm { handle: *handle, stream: EventStream::new() };
    let widget = D::new(&mut relm);
    let Relm { handle: _, stream } = relm;
    Component { stream, widget }
}

impl<M: Clone + DisplayVariant, W: Widget<M>> Component<M, W> {
    /// The dispatch loop: drains the stream, applying the update function
    /// to every pending message in emission order — first emitted, first
    /// applied — each call running to completion before the next message is
    /// taken, so no two update calls of this component ever overlap.
    ///
    /// When the handle asks for debug timings, each update call is timed
    /// and every call that took at least [`SLOW_UPDATE_THRESHOLD_MS`]
    /// milliseconds yields one report; the reports never affect what is
    /// dispatched.
    pub fn dispatch_pending(&mut self, handle: &Handle) -> (reports: Vec<SlowUpdateReport>)
        ensures
            final(self).widget.processed() == old(self).widget.processed() + old(self).stream@,
            final(self).stream@.len() == 0,
            reports@.len() <= old(self).stream@.len(),
            !handle.debug_timings ==> reports@.len() == 0,
            forall|i: int| 0 <= i < reports@.len() ==>
                (#[trigger] reports@[i]).elapsed_ms >= SLOW_UPDATE_THRESHOLD_MS
                && reports@[i].label@.len() <= LABEL_LIMIT + 1,
    {
        let ghost orig_hist = self.widget.processed();
        let ghost orig_pending = self.stream@;
        let mut reports: Vec<SlowUpdateReport> = Vec::new();
        while !self.stream.is_empty()
            invariant
                orig_hist + orig_pending == self.widget.processed() + self.stream@,
                reports@.len() + self.stream@.len() <= orig_pending.len(),
                !handle.debug_timings ==> reports@.len() == 0,
                forall|i: int| 0 <= i < reports@.len() ==>
                    (#[trigger] reports@[i]).elapsed_ms >= SLOW_UPDATE_THRESHOLD_MS
                    && reports@[i].label@.len() <= LABEL_LIMIT + 1,
            decreases self.stream@.len(),
        {
            let ghost pre_hist = self.widget.processed();
            let ghost pre_pending = self.stream@;
            let message = self.stream.pop().unwrap();
            if handle.debug_timings {
                let label = message.display_variant();
                let start = clock::monotonic_now();
                self.widget.update(message);
                let elapsed_ms = clock::elapsed_millis(&start);
                if let Some(report) = slow_update_warning(label, elapsed_ms) {
                    proof {
                        lemma_truncated_label_bound(label@);
                    }
                    reports.push(report);
                }
            } else {
                self.widget.update(message);
            }
            proof {
                assert(pre_hist.push(pre_pending[0]) + pre_pending.drop_first() =~= pre_hist
                    + pre_pending);
            }
        }
        proof {
            assert(self.widget.processed() + self.stream@ =~= self.widget.processed());
        }
        reports
    }
}

/// Dispatch is serialized: draining a queue that starts with some message
/// applies that message alone, to completion, and only then the rest. The
/// processed history therefore grows message by message — no two update
/// calls of one component are ever in flight together, however many
/// messages were pending before the loop was polled.
pub proof fn lemma_updates_serialized<M>(history: Seq<M>, pending: Seq<M>)
    requires
        pending.len() > 0,
    ensures
        history + pending == history.push(pending[0]) + pending.drop_first(),
{
    assert(history + pending =~= history.push(pending[0]) + pending.drop_first());
}

/// Composition of components into a parent container.
pub trait ContainerWidget: Sized {
    /// The parent as the scene-graph model sees it.
    spec fn as_container(&self) -> Container;

    /// Builds a child component, attaches its container behind the
    /// parent's present children, and shows it; the component comes back to
    /// the caller for further interaction, its processed history empty.
    fn add_widget<D, M>(&mut self, handle: &Handle) -> (c: Component<M, D>)
        where D: Widget<M>, M: Clone + DisplayVariant,
        ensures
            final(self).as_container().children@ == old(self).as_container().children@.push(
                c.widget.container_view().id,
            ),
            final(self).as_container().id == old(self).as_container().id,
            final(self).as_container().shown == old(self).as_container().shown,
            c.widget.container_view().shown,
            c.widget.processed() == Seq::<M>::empty(),
    ;

    /// Detaches a previously added component's container from the parent:
    /// the earliest attachment of that container goes away. The component's
    /// stream is not closed here; it vanishes with its last owner. Removing
    /// a component that was never added is the caller's responsibility and
    /// leaves the parent unchanged.
    fn remove_widget<M, W>(&mut self, component: Component<M, W>)
        where W: Widget<M>, M: Clone + DisplayVariant,
        ensures
            final(self).as_container().children@ == old(self).as_container().children@.remove_value(
                component.widget.container_view().id,
            ),
            final(self).as_container().id == old(self).as_container().id,
            final(self).as_container().shown == old(self).as_container().shown,
    ;
}

impl ContainerWidget for Container {
    open spec fn as_container(&self) -> Container {
        *self
    }

    fn add_widget<D, M>(&mut self, handle: &Handle) -> (c: Component<M, D>)
        where D: Widget<M>, M: Clone + DisplayVariant,
    {
        let mut component = create_widget::<D, M>(handle);
        let child = component.widget.container_mut();
        child.show_all();
        let id = child.id;
        self.add(id);
        component
    }

    fn remove_widget<M, W>(&mut self, component: Component<M, W>)
        where W: Widget<M>, M: Clone + DisplayVariant,
    {
        let id = component.widget.container().id;
        self.remove(id);
    }
}

} // verus!
