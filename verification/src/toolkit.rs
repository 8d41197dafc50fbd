//! The model of the windowing toolkit's boundary.
//!
//! The toolkit itself is out of scope; the engine only needs what its logic
//! reads of it, held as plain values. A [`Container`] models one toolkit
//! container in the scene graph: which children are attached to it, in
//! attachment order, and whether it has been shown. A [`Toolkit`] is the
//! startup capability: whether toolkit initialization succeeds and whether
//! the scheduler's event loop can be built. The host turns the real
//! toolkit's answers into these values at the boundary.

use vstd::prelude::*;

verus! {

use vstd::seq_lib::*;

/// One toolkit container: an identifier chosen by whoever builds the widget
/// tree, the identifiers of the children attached to it in attachment
/// order, and whether it has been shown.
#[derive(Debug, Clone, PartialEq, Eq)]
pub struct Container {
    /// The identifier of this container in the scene graph.
    pub id: u64,
    /// The identifiers of the attached children, in attachment order.
    pub children: Vec<u64>,
    /// Whether this container has been shown.
    pub shown: bool,
}

impl Container {
    /// A fresh container: no children, not yet shown.
    pub fn new(id: u64) -> (c: Container)
        ensures
            c.id == id,
            c.children@ == Seq::<u64>::empty(),
            !c.shown,
    {
        Container { id, children: Vec::new(), shown: false }
    }

    /// Attaches a child behind the children already present.
    pub fn add(&mut self, child: u64)
        ensures
            final(self).children@ == old(self).children@.push(child),
            final(self).id == old(self).id,
            final(self).shown == old(self).shown,
    {
        self.children.push(child);
    }

    /// Detaches the earliest-attached occurrence of `child`. Detaching a
    /// child that was never attached leaves the container unchanged; the
    /// engine does not defend against it.
    pub fn remove(&mut self, child: u64)
        ensures
            final(self).children@ == old(self).children@.remove_value(child),
            final(self).id == old(self).id,
            final(self).shown == old(self).shown,
    {
        let n = self.children.len();
        let mut i: usize = 0;
        while i < n
            invariant
                n == self.children.len(),
                i <= n,
                forall|k: int| 0 <= k < i ==> self.children@[k] != child,
                self.id == old(self).id,
                self.shown == old(self).shown,
                self.children == old(self).children,
            decreases n - i,
        {
            if self.children[i] == child {
                proof {
                    lemma_remove_value_is_remove_at(self.children@, child, i as int);
                }
                self.children.remove(i);
                return;
            }
            i += 1;
        }
        proof {
            self.children@.index_of_first_ensures(child);
            if self.children@.index_of_first(child) is Some {
                let j = self.children@.index_of_first(child)->Some_0;
                assert(self.children@[j] != child);
            }
        }
    }

    /// Whether `child` is currently attached.
    pub fn has_child(&self, child: u64) -> (b: bool)
        ensures
            b == self.children@.contains(child),
    {
        let n = self.children.len();
        let mut i: usize = 0;
        while i < n
            invariant
                n == self.children.len(),
                i <= n,
                forall|k: int| 0 <= k < i ==> self.children@[k] != child,
            decreases n - i,
        {
            if self.children[i] == child {
                return true;
            }
            i += 1;
        }
        false
    }

    /// Marks this container shown. The containers of child components are
    /// owned by those components and carry their own flag; composition shows
    /// each child as it attaches it.
    pub fn show_all(&mut self)
        ensures
            final(self).shown,
            final(self).id == old(self).id,
            final(self).children@ == old(self).children@,
    {
        self.shown = true;
    }
}

/// Removing the first occurrence of a value, when it stands at index `i`
/// and nowhere earlier, drops exactly the element at `i`.
proof fn lemma_remove_value_is_remove_at(s: Seq<u64>, x: u64, i: int)
    requires
        0 <= i < s.len(),
        s[i] == x,
        forall|k: int| 0 <= k < i ==> s[k] != x,
    ensures
        s.remove_value(x) == s.remove(i),
{
    s.index_of_first_ensures(x);
    if s.index_of_first(x) is Some {
        let j = s.index_of_first(x)->Some_0;
        if j < i {
            assert(s[j] != x);
        }
        if i < j {
            assert(s[i] != x);
        }
        assert(j == i);
    } else {
        assert(s[i] != x);
    }
}

/// The startup capability of the toolkit boundary: what the engine reads of
/// the host environment when a run begins. The host builds one from the real
/// toolkit's answers; a test builds one by hand to simulate a failure.
#[derive(Debug, Clone, Copy, PartialEq, Eq)]
pub struct Toolkit {
    /// Whether toolkit initialization succeeds.
    pub init_ok: bool,
    /// The raw error code of the I/O failure that building the scheduler's
    /// event loop would report, or nothing when it would succeed.
    pub event_loop_error: Option<i32>,
}

impl Toolkit {
    /// Whether a run can start at all: the toolkit initializes and the
    /// event loop can be built.
    pub open spec fn startup_ok(self) -> bool {
        self.init_ok && self.event_loop_error is None
    }

    /// A toolkit boundary on which startup succeeds.
    pub fn working() -> (t: Toolkit)
        ensures
            t.startup_ok(),
            t.init_ok,
            t.event_loop_error is None,
    {
        Toolkit { init_ok: true, event_loop_error: None }
    }
}

} // verus!
