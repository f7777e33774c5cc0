//! The chip layer: one object owning the deferred-task set, the interrupt
//! controller and the dispatch table, exposing the service loop the board
//! runs between sleeps.

use vstd::prelude::*;

use crate::dispatch::CtrlModel;
use crate::dispatch::DeferredQueue;
use crate::dispatch::DispatchTable;
use crate::dispatch::Dispatched;
use crate::dispatch::Fault;
use crate::dispatch::InterruptController;
use crate::dispatch::deferred_trace;
use crate::dispatch::mapped_prefix;
use crate::dispatch::service_pass;
use crate::dispatch::set_bits;
use crate::dispatch::vector_trace;

verus! {

/// The chip's interrupt-servicing state: the deferred-task set and the
/// interrupt controller's bits, initialized once at boot and alive for the
/// process's whole run, plus the vector-to-handler table populated during
/// construction.
pub struct Stm32f4xx {
    deferred: DeferredQueue,
    ctrl: InterruptController,
    table: DispatchTable,
}

impl Stm32f4xx {
    /// The deferred-task bits.
    pub closed spec fn deferred_model(&self) -> Seq<bool> {
        self.deferred@
    }

    /// The controller's pending and enabled bits.
    pub closed spec fn ctrl_model(&self) -> CtrlModel {
        self.ctrl@
    }

    /// The vector-to-handler table.
    pub closed spec fn table_model(&self) -> Seq<Option<usize>> {
        self.table@
    }

    /// The rows cover the same vectors.
    pub open spec fn wf(&self) -> bool {
        &&& self.ctrl_model().wf()
        &&& self.table_model().len() == self.ctrl_model().pending.len()
    }

    /// A chip over `tasks` deferred-task ids and `vectors` interrupt
    /// vectors: nothing raised, nothing pending, nothing enabled, nothing
    /// mapped.
    pub fn new(tasks: usize, vectors: usize) -> (c: Stm32f4xx)
        ensures
            c.wf(),
            c.deferred_model().len() == tasks,
            c.ctrl_model().pending.len() == vectors,
            forall|j: int| 0 <= j < tasks ==> !c.deferred_model()[j],
            forall|j: int|
                0 <= j < vectors ==> !c.ctrl_model().pending[j] && !c.ctrl_model().enabled[j],
            forall|j: int| 0 <= j < vectors ==> c.table_model()[j] is None,
    {
        Stm32f4xx {
            deferred: DeferredQueue::new(tasks),
            ctrl: InterruptController::new(vectors),
            table: DispatchTable::new(vectors),
        }
    }

    /// Wires `vector` to `handler` in the static dispatch table; part of
    /// board construction, done at most once per vector.
    pub fn map_vector(&mut self, vector: usize, handler: usize)
        requires
            old(self).wf(),
            vector < old(self).table_model().len(),
            old(self).table_model()[vector as int] is None,
        ensures
            final(self).wf(),
            final(self).table_model() == old(self).table_model().update(
                vector as int,
                Some(handler),
            ),
            final(self).ctrl_model() == old(self).ctrl_model(),
            final(self).deferred_model() == old(self).deferred_model(),
    {
        self.table.map_handler(vector, handler);
    }

    /// Unmasks `vector` at the controller.
    pub fn enable_vector(&mut self, vector: usize)
        requires
            old(self).wf(),
            vector < old(self).ctrl_model().pending.len(),
        ensures
            final(self).wf(),
            final(self).ctrl_model().pending == old(self).ctrl_model().pending,
            final(self).ctrl_model().enabled == old(self).ctrl_model().enabled.update(
                vector as int,
                true,
            ),
            final(self).table_model() == old(self).table_model(),
            final(self).deferred_model() == old(self).deferred_model(),
    {
        self.ctrl.enable(vector);
    }

    /// A genuine hardware assertion of `vector`: the one way a pending bit
    /// turns on.
    pub fn assert_irq(&mut self, vector: usize)
        requires
            old(self).wf(),
            vector < old(self).ctrl_model().pending.len(),
        ensures
            final(self).wf(),
            final(self).ctrl_model().pending == old(self).ctrl_model().pending.update(
                vector as int,
                true,
            ),
            final(self).ctrl_model().enabled == old(self).ctrl_model().enabled,
            final(self).table_model() == old(self).table_model(),
            final(self).deferred_model() == old(self).deferred_model(),
    {
        self.ctrl.assert_irq(vector);
    }

    /// A driver raises deferred task `task` for bottom-half service.
    pub fn post_deferred(&mut self, task: usize)
        requires
            old(self).wf(),
            task < old(self).deferred_model().len(),
        ensures
            final(self).wf(),
            final(self).deferred_model() == old(self).deferred_model().update(task as int, true),
            final(self).ctrl_model() == old(self).ctrl_model(),
            final(self).table_model() == old(self).table_model(),
    {
        self.deferred.post(task);
    }

    /// Services pending work until none is left: every raised deferred
    /// task first, in task order, then every pending enabled vector in
    /// vector order, each serviced exactly once, cleared and re-enabled.
    /// Returns the dispatch trace and either success or the [`Fault`]
    /// naming the first live vector with no mapped handler, at which the
    /// pass halts.
    pub fn service_pending_interrupts(&mut self) -> (r: (Vec<Dispatched>, Result<(), Fault>))
        requires
            old(self).wf(),
        ensures
            final(self).wf(),
            final(self).table_model() == old(self).table_model(),
            ({
                let dbits = set_bits(old(self).deferred_model());
                let vbits = old(self).ctrl_model().live_bits();
                let table = old(self).table_model();
                let m = mapped_prefix(vbits, table);
                &&& r.0@ == deferred_trace(dbits) + vector_trace(vbits.take(m), table)
                &&& final(self).deferred_model().len() == old(self).deferred_model().len()
                &&& forall|j: int|
                    0 <= j < final(self).deferred_model().len()
                        ==> !final(self).deferred_model()[j]
                &&& final(self).ctrl_model().enabled == old(self).ctrl_model().enabled
                &&& final(self).ctrl_model().pending.len()
                    == old(self).ctrl_model().pending.len()
                &&& forall|j: int|
                    0 <= j < final(self).ctrl_model().pending.len()
                        ==> final(self).ctrl_model().pending[j] == (old(self).ctrl_model().pending[j]
                        && !vbits.take(m).contains(j))
                &&& (m == vbits.len() ==> r.1 is Ok && final(self).ctrl_model().live_bits().len()
                    == 0)
                &&& (m < vbits.len() ==> {
                    &&& (r.1 matches Err(f) && f.spec_vector() == vbits[m])
                    &&& table[vbits[m]] is None
                })
            }),
    {
        service_pass(&mut self.deferred, &mut self.ctrl, &self.table)
    }

    /// How many interrupt vectors the chip was built with.
    pub fn vector_count(&self) -> (n: usize)
        requires
            self.wf(),
        ensures
            n == self.ctrl_model().pending.len(),
    {
        self.table.len()
    }

    /// How many deferred-task ids the chip was built with.
    pub fn deferred_count(&self) -> (n: usize)
        ensures
            n == self.deferred_model().len(),
    {
        self.deferred.len()
    }

    /// The handler mapped to `vector`, if any.
    pub fn handler_for(&self, vector: usize) -> (r: Option<usize>)
        requires
            vector < self.table_model().len(),
        ensures
            r == self.table_model()[vector as int],
    {
        self.table.handler(vector)
    }

    /// Whether `vector` is pending at the controller.
    pub fn vector_pending(&self, vector: usize) -> (b: bool)
        requires
            self.wf(),
            vector < self.ctrl_model().pending.len(),
        ensures
            b == self.ctrl_model().pending[vector as int],
    {
        self.ctrl.is_pending(vector)
    }

    /// Whether `vector` is enabled at the controller.
    pub fn vector_enabled(&self, vector: usize) -> (b: bool)
        requires
            self.wf(),
            vector < self.ctrl_model().pending.len(),
        ensures
            b == self.ctrl_model().enabled[vector as int],
    {
        self.ctrl.is_enabled(vector)
    }

    /// Whether any work is owed: a raised deferred task or a pending
    /// enabled vector.
    pub fn has_pending_interrupts(&self) -> (b: bool)
        requires
            self.wf(),
        ensures
            b == (self.ctrl_model().live_bits().len() > 0 || exists|j: int|
                0 <= j < self.deferred_model().len() && self.deferred_model()[j]),
    {
        let hardware = self.ctrl.has_pending();
        let software = self.deferred.has_tasks();
        proof {
            if software {
                let j = choose|j: int| 0 <= j < self.deferred@.len() && self.deferred@[j];
                assert(self.deferred_model()[j]);
            }
            if exists|j: int|
                0 <= j < self.deferred_model().len() && self.deferred_model()[j] {
                let j = choose|j: int|
                    0 <= j < self.deferred_model().len() && self.deferred_model()[j];
                assert(self.deferred@[j]);
            }
        }
        hardware || software
    }
}

} // verus!
