//! The per-component capability and the application entry point.
//!
//! A [`Relm`] is handed to a widget's constructor and is the sole way user
//! code wires asynchronous producers onto the component's own stream:
//! [`Relm::connect`] turns a producer's outcomes into a [`Connector`], the
//! unit of work that will emit the mapped messages; [`Relm::exec`] submits
//! such a unit to the scheduler, which performs its emissions in order;
//! [`Relm::connect_exec`] does both at once. [`Relm::run`] bootstraps an
//! application: it checks the toolkit startup capability, builds the root
//! component, and drains its stream to quiescence.

use vstd::prelude::*;

use crate::component::create_widget;
use crate::component::Component;
use crate::diagnostics::SlowUpdateReport;
use crate::diagnostics::LABEL_LIMIT;
use crate::diagnostics::SLOW_UPDATE_THRESHOLD_MS;
use crate::error::Error;
use crate::stream::EventStream;
use crate::toolkit::Toolkit;
use crate::widget::DisplayVariant;
use crate::widget::Widget;

verus! {

/// The scheduler handle: the configuration every component is built with.
/// Passing it explicitly — rather than through an ambient singleton —
/// keeps ownership visible and lets a test run the engine in any mode.
#[derive(Debug, Clone, Copy, PartialEq, Eq, Structural)]
pub struct Handle {
    /// Whether the dispatch loop times update calls and reports slow ones.
    pub debug_timings: bool,
}

impl Handle {
    /// A handle with the given diagnostic mode.
    pub fn new(debug_timings: bool) -> (h: Handle)
        ensures
            h.debug_timings == debug_timings,
    {
        Handle { debug_timings }
    }
}

/// How many leading outcomes of a producer are successes: the number of
/// items a connector emits before the producer's first failure ends it.
pub open spec fn ok_prefix_len<I, E>(s: Seq<Result<I, E>>) -> nat
    decreases s.len(),
{
    if s.len() == 0 {
        0
    } else if s[0] is Err {
        0
    } else {
        (1 + ok_prefix_len(s.drop_first())) as nat
    }
}

/// A connector never emits more messages than its producer had outcomes,
/// and every outcome it consumed was a success.
pub proof fn lemma_ok_prefix_len_bound<I, E>(s: Seq<Result<I, E>>)
    ensures
        ok_prefix_len(s) <= s.len(),
        forall|k: int| 0 <= k < ok_prefix_len(s) ==> s[k] is Ok,
    decreases s.len(),
{
    if s.len() > 0 && s[0] is Ok {
        lemma_ok_prefix_len_bound(s.drop_first());
        assert forall|k: int| 0 <= k < ok_prefix_len(s) implies s[k] is Ok by {
            if k > 0 {
                assert(s.drop_first()[k - 1] is Ok);
            }
        }
    }
}

/// What connecting a producer promises of the messages it mapped: message
/// `k` is a possible result of the callback on the `k`-th outcome's item,
/// and that outcome was a success. With a deterministic callback this pins
/// every message down.
pub open spec fn maps_ok_prefix<I, E, M, F: Fn(I) -> M>(
    callback: F,
    outcomes: Seq<Result<I, E>>,
    messages: Seq<M>,
) -> bool {
    &&& forall|k: int| 0 <= k < messages.len() ==> (#[trigger] outcomes[k]) is Ok
    &&& forall|k: int|
        0 <= k < messages.len() ==> call_ensures(
            callback,
            (outcomes[k]->Ok_0,),
            #[trigger] messages[k],
        )
}

/// Connector mapping, pinned: when the callback maps each item to one
/// fixed message, a connector that satisfies [`maps_ok_prefix`] carries
/// exactly the image of the producer's successful prefix, in production
/// order — for a producer yielding items `i1, i2, ...` the messages are
/// `map(i1), map(i2), ...` and nothing else.
pub proof fn lemma_deterministic_connector<I, E, M, F: Fn(I) -> M>(
    callback: F,
    outcomes: Seq<Result<I, E>>,
    messages: Seq<M>,
    mapping: spec_fn(I) -> M,
)
    requires
        maps_ok_prefix(callback, outcomes, messages),
        forall|i: I, m: M| call_ensures(callback, (i,), m) ==> m == mapping(i),
    ensures
        forall|k: int|
            0 <= k < messages.len() ==> #[trigger] messages[k] == mapping(outcomes[k]->Ok_0),
{
    assert forall|k: int| 0 <= k < messages.len() implies #[trigger] messages[k] == mapping(
        outcomes[k]->Ok_0,
    ) by {
        assert(call_ensures(callback, (outcomes[k]->Ok_0,), messages[k]));
    }
}

/// A mapped prefix grows one message at a time: appending a possible
/// result of the callback on the next successful outcome keeps the
/// property.
proof fn lemma_maps_ok_prefix_push<I, E, M, F: Fn(I) -> M>(
    callback: F,
    outcomes: Seq<Result<I, E>>,
    messages: Seq<M>,
    item: I,
    mapped: M,
)
    requires
        maps_ok_prefix(callback, outcomes, messages),
        outcomes[messages.len() as int] is Ok,
        outcomes[messages.len() as int]->Ok_0 == item,
        call_ensures(callback, (item,), mapped),
    ensures
        maps_ok_prefix(callback, outcomes, messages.push(mapped)),
{
    assert forall|k: int| 0 <= k < messages.push(mapped).len() implies (#[trigger] outcomes[k])
        is Ok by {
        if k >= messages.len() {
            assert(outcomes[messages.len() as int] is Ok);
        }
    }
    assert forall|k: int| 0 <= k < messages.push(mapped).len() implies call_ensures(
        callback,
        (outcomes[k]->Ok_0,),
        #[trigger] messages.push(mapped)[k],
    ) by {
        if k < messages.len() {
            assert(messages.push(mapped)[k] == messages[k]);
            assert(call_ensures(callback, (outcomes[k]->Ok_0,), messages[k]));
        } else {
            assert(messages.push(mapped)[k] == mapped);
        }
    }
}

/// A cancellable, spawnable unit of work: the messages an asynchronous
/// producer's successful items were mapped to, in production order, ready
/// to be emitted onto the stream they were connected to. Dropping it
/// without submitting it cancels the work.
pub struct Connector<M> {
    /// The mapped messages, in the order the producer yielded the items.
    pub messages: Vec<M>,
    /// Whether the producer ended in a failure. The failure itself is
    /// swallowed, as the emissions of one connector must not fail; this
    /// flag is what keeps it observable to the caller.
    pub failed: bool,
}

/// The per-component capability: the scheduler handle and the component's
/// own outbound stream. It is exclusively owned by the component being
/// built and lives no longer than the component needs to spawn work.
pub struct Relm<M> {
    /// The scheduler handle.
    pub handle: Handle,
    /// The component's own stream.
    pub stream: EventStream<M>,
}

/// What a finished run hands back: the root component, its stream drained,
/// and the slow-update reports the dispatch loop gathered.
pub struct RunOutcome<M, D> {
    /// The root component, quiescent.
    pub component: Component<M, D>,
    /// One report per slow update call, in dispatch order.
    pub slow_updates: Vec<SlowUpdateReport>,
}

impl<M: Clone + DisplayVariant> Relm<M> {
    /// Adapts an asynchronous producer to this component's stream: every
    /// successfully produced item is mapped through `callback`, in
    /// production order, up to the producer's first failure, which ends
    /// the unit of work. The buffered outcomes are consumed. The connector
    /// only describes the work; nothing is emitted until it is submitted
    /// with [`Relm::exec`].
    #[verifier::loop_isolation(false)]
    pub fn connect<I, E, F: Fn(I) -> M>(&self, source: &mut Vec<Result<I, E>>, callback: F) -> (c:
        Connector<M>)
        requires
            forall|i: I| callback.requires((i,)),
        ensures
            c.messages@.len() == ok_prefix_len(old(source)@),
            maps_ok_prefix(callback, old(source)@, c.messages@),
            c.failed == (ok_prefix_len(old(source)@) < old(source)@.len()),
            final(source)@.len() == 0,
    {
        let ghost orig = source@;
        let mut messages: Vec<M> = Vec::new();
        proof {
            assert(orig.subrange(0, orig.len() as int) =~= orig);
        }
        while source.len() > 0
            invariant
                forall|i: I| callback.requires((i,)),
                source@ == orig.subrange(orig.len() - source@.len(), orig.len() as int),
                messages@.len() + source@.len() == orig.len(),
                ok_prefix_len(orig) == messages@.len() + ok_prefix_len(source@),
                maps_ok_prefix(callback, orig, messages@),
            decreases source@.len(),
        {
            let ghost pre_rest = source@;
            match source.remove(0) {
                Ok(item) => {
                    proof {
                        assert(pre_rest.remove(0) =~= pre_rest.drop_first());
                        assert(pre_rest.drop_first() =~= orig.subrange(
                            orig.len() - pre_rest.len() + 1,
                            orig.len() as int,
                        ));
                    }
                    let ghost pre_messages = messages@;
                    let ghost j = pre_messages.len() as int;
                    let mapped = callback(item);
                    messages.push(mapped);
                    proof {
                        assert(orig.subrange(j, orig.len() as int)[0] == orig[j]);
                        assert(orig[j] is Ok && orig[j]->Ok_0 == item);
                        lemma_maps_ok_prefix_push(callback, orig, pre_messages, item, mapped);
                        assert(messages@ == pre_messages.push(mapped));
                    }
                },
                Err(_) => {
                    proof {
                        assert(ok_prefix_len(pre_rest) == 0);
                    }
                    source.clear();
                    return Connector { messages, failed: true };
                },
            }
        }
        Connector { messages, failed: false }
    }

    /// Connects a producer and immediately submits the resulting unit of
    /// work: the mapped messages land on this component's stream, behind
    /// whatever was already pending.
    pub fn connect_exec<I, E, F: Fn(I) -> M>(&mut self, source: &mut Vec<Result<I, E>>, callback: F)
        requires
            forall|i: I| callback.requires((i,)),
        ensures
            final(self).stream@.len() == old(self).stream@.len() + ok_prefix_len(old(source)@),
            final(self).stream@.take(old(self).stream@.len() as int) == old(self).stream@,
            maps_ok_prefix(
                callback,
                old(source)@,
                final(self).stream@.skip(old(self).stream@.len() as int),
            ),
            final(self).handle == old(self).handle,
            final(source)@.len() == 0,
    {
        let ghost base = self.stream@;
        let unit = self.connect(source, callback);
        let ghost msgs = unit.messages@;
        self.exec(unit);
        proof {
            assert(self.stream@.take(base.len() as int) =~= base);
            assert(self.stream@.skip(base.len() as int) =~= msgs);
        }
    }

    /// Submits a unit of work to the scheduler: its messages are emitted
    /// onto this component's stream in their given order, behind whatever
    /// was already pending. The emissions never block and never fail; a
    /// producer failure the unit recorded stays recorded on the unit and
    /// is otherwise swallowed here.
    pub fn exec(&mut self, unit: Connector<M>)
        ensures
            final(self).stream@ == old(self).stream@ + unit.messages@,
            final(self).handle == old(self).handle,
    {
        let Connector { messages, failed: _ } = unit;
        self.stream.emit_all(messages);
    }

    /// The scheduler handle, for building further components.
    pub fn handle(&self) -> (h: &Handle)
        ensures
            *h == self.handle,
    {
        &self.handle
    }

    /// The component's own outbound stream, for advanced composition.
    pub fn stream(&self) -> (s: &EventStream<M>)
        ensures
            *s == self.stream,
    {
        &self.stream
    }

    /// Bootstraps an application around a root widget. Startup fails fatally
    /// — with [`Error::ToolkitInitFailed`] before anything else happens, or
    /// with [`Error::Io`] before any widget exists — exactly when the
    /// toolkit capability says initialization or event-loop construction
    /// fails. Otherwise the root component is built and its stream drained
    /// to quiescence: every message its constructor left pending has been
    /// applied, in emission order, when the outcome comes back.
    pub fn run<D: Widget<M>>(toolkit: &Toolkit, debug_timings: bool) -> (r: Result<
        RunOutcome<M, D>,
        Error,
    >)
        ensures
            r is Ok <==> toolkit.startup_ok(),
            !toolkit.init_ok ==> r == Err::<RunOutcome<M, D>, Error>(Error::ToolkitInitFailed),
            toolkit.init_ok && toolkit.event_loop_error is Some ==> r == Err::<
                RunOutcome<M, D>,
                Error,
            >(Error::Io(toolkit.event_loop_error->Some_0)),
            r is Ok ==> (r->Ok_0).component.stream@.len() == 0,
            r is Ok && !debug_timings ==> (r->Ok_0).slow_updates@.len() == 0,
            r is Ok ==> forall|i: int|
                0 <= i < (r->Ok_0).slow_updates@.len() ==> (#[trigger] (
                r->Ok_0).slow_updates@[i]).elapsed_ms >= SLOW_UPDATE_THRESHOLD_MS && (
                r->Ok_0).slow_updates@[i].label@.len() <= LABEL_LIMIT + 1,
    {
        if !toolkit.init_ok {
            return Err(Error::ToolkitInitFailed);
        }
        if let Some(code) = toolkit.event_loop_error {
            return Err(Error::Io(code));
        }
        let handle = Handle { debug_timings };
        let mut component = create_widget::<D, M>(&handle);
        let slow_updates = component.dispatch_pending(&handle);
        Ok(RunOutcome { component, slow_updates })
    }
}

} // verus!

