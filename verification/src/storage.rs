//! Single-use storage slots and the grow-once registry they fill.
//!
//! A board owns one `Storage` block per driver type: a fixed number of cells,
//! all empty at boot. Construction code takes a [`Slot`] for a cell, builds
//! the driver, and consumes the slot with [`Storage::finalize`]. The slot is
//! a move-only token, so the same cell can be initialized at most once, and
//! the contracts below guarantee that a cell, once written, is never touched
//! again: a [`Handle`] to it stays valid, and points at the same driver, for
//! the rest of the program.

use vstd::prelude::*;

verus! {

/// A single-use claim on one cell of a [`Storage`] block.
///
/// Slots are handed out by [`Storage::reserve`], one per cell, and consumed
/// by move in [`Storage::finalize`]. A `Slot` is neither `Copy` nor `Clone`
/// and cannot be constructed outside this module, so a harness that tries to
/// finalize an already-consumed slot fails to compile: reuse of storage is
/// ruled out before the program runs, not by a runtime branch.
pub struct Slot {
    index: usize,
}

impl Slot {
    /// The cell this slot claims.
    pub closed spec fn cell(&self) -> int {
        self.index as int
    }

    /// The cell this slot claims, as a runtime value.
    pub fn index(&self) -> (i: usize)
        ensures
            i as int == self.cell(),
    {
        self.index
    }
}

/// A permanent, copyable reference to a finalized cell.
///
/// Handles are only created by [`Storage::finalize`]; the cell a handle
/// names is already filled, and every later operation on the block leaves
/// that cell untouched, so the handle stays valid for the program's life.
#[derive(Clone, Copy, PartialEq, Eq, Structural)]
pub struct Handle {
    index: usize,
}

impl Handle {
    /// The cell this handle names.
    pub closed spec fn cell(&self) -> int {
        self.index as int
    }

    /// The cell this handle names, as a runtime value.
    pub fn index(&self) -> (i: usize)
        ensures
            i as int == self.cell(),
    {
        self.index
    }
}

/// The mathematical content of a [`Storage`] block: its cells and how many
/// slots have been handed out so far.
pub struct StorageModel<T> {
    /// One entry per cell; `None` while the cell is uninitialized.
    pub cells: Seq<Option<T>>,
    /// Number of slots issued so far; slot `i` was issued in step `i`.
    pub issued: nat,
}

impl<T> StorageModel<T> {
    /// Slots are issued in order, and a cell past the issued mark is still
    /// empty.
    pub open spec fn wf(self) -> bool {
        &&& self.issued <= self.cells.len()
        &&& forall|i: int|
            self.issued <= i < self.cells.len() ==> self.cells[i] is None
    }

    /// The block will accept `slot`: the slot was issued and its cell has not
    /// been filled.
    pub open spec fn accepts(self, slot: Slot) -> bool {
        &&& 0 <= slot.cell() < self.issued
        &&& self.cells[slot.cell()] is None
    }
}

/// Fixed-capacity, zero-heap storage for one driver type.
///
/// The block is the only form of allocation in the system: a compile-time
/// sized run of cells, each initialized at most once through a [`Slot`] and
/// never released afterwards.
pub struct Storage<T> {
    cells: Vec<Option<T>>,
    issued: usize,
}

impl<T> View for Storage<T> {
    type V = StorageModel<T>;

    closed spec fn view(&self) -> StorageModel<T> {
        StorageModel { cells: self.cells@, issued: self.issued as nat }
    }
}

impl<T> Storage<T> {
    /// A fresh block of `capacity` empty cells.
    pub fn new(capacity: usize) -> (r: Storage<T>)
        ensures
            r@.wf(),
            r@.cells.len() == capacity,
            r@.issued == 0,
            forall|i: int| 0 <= i < capacity ==> r@.cells[i] is None,
    {
        let mut cells: Vec<Option<T>> = Vec::new();
        let mut n: usize = 0;
        while n < capacity
            invariant
                n == cells.len(),
                n <= capacity,
                forall|i: int| 0 <= i < n ==> cells@[i] is None,
            decreases capacity - n,
        {
            cells.push(None);
            n = n + 1;
        }
        Storage { cells, issued: 0 }
    }

    /// How many cells the block was built with.
    pub fn capacity(&self) -> (c: usize)
        ensures
            c as int == self@.cells.len(),
    {
        self.cells.len()
    }

    /// How many slots have been handed out.
    pub fn reserved(&self) -> (n: usize)
        ensures
            n as nat == self@.issued,
    {
        self.issued
    }

    /// Hands out the next slot, or `None` when every cell is claimed.
    ///
    /// Each call yields a slot for a distinct cell, so two slots never race
    /// for the same storage.
    pub fn reserve(&mut self) -> (r: Option<Slot>)
        requires
            old(self)@.wf(),
        ensures
            final(self)@.wf(),
            final(self)@.cells == old(self)@.cells,
            old(self)@.issued < old(self)@.cells.len() ==> {
                &&& r is Some
                &&& r.unwrap().cell() == old(self)@.issued
                &&& final(self)@.issued == old(self)@.issued + 1
                &&& final(self)@.accepts(r.unwrap())
            },
            old(self)@.issued == old(self)@.cells.len() ==> {
                &&& r is None
                &&& final(self)@ == old(self)@
            },
    {
        if self.issued < self.cells.len() {
            let slot = Slot { index: self.issued };
            self.issued = self.issued + 1;
            Some(slot)
        } else {
            None
        }
    }

    /// Consumes `slot` and fills its cell with `value`, returning the
    /// permanent handle to the cell.
    ///
    /// Exactly the claimed cell changes; every other cell — in particular
    /// every already-finalized driver — is left as it was, so handles handed
    /// out earlier keep their meaning.
    pub fn finalize(&mut self, slot: Slot, value: T) -> (h: Handle)
        requires
            old(self)@.wf(),
            old(self)@.accepts(slot),
        ensures
            final(self)@.wf(),
            h.cell() == slot.cell(),
            final(self)@.issued == old(self)@.issued,
            final(self)@.cells == old(self)@.cells.update(slot.cell(), Some(value)),
            final(self)@.cells[h.cell()] == Some(value),
            forall|j: int|
                0 <= j < old(self)@.cells.len() && j != slot.cell()
                    ==> final(self)@.cells[j] == old(self)@.cells[j],
    {
        let index = slot.index;
        self.cells[index] = Some(value);
        Handle { index }
    }

    /// Whether the cell a handle names is filled.
    pub fn is_filled(&self, h: Handle) -> (b: bool)
        requires
            0 <= h.cell() < self@.cells.len(),
        ensures
            b == (self@.cells[h.cell()] is Some),
    {
        self.cells[h.index].is_some()
    }

    /// Mutably borrows the driver in the cell `h` names, for the driver's
    /// own state changes. The cell keeps its identity: it stays filled, at
    /// the same index, and no other cell is touched.
    pub fn get_mut(&mut self, h: Handle) -> (r: &mut T)
        requires
            old(self)@.wf(),
            0 <= h.cell() < old(self)@.cells.len(),
            old(self)@.cells[h.cell()] is Some,
        ensures
            final(self)@.wf(),
            old(self)@.cells[h.cell()] == Some(*r),
            final(self)@.cells == old(self)@.cells.update(h.cell(), Some(*final(r))),
            final(self)@.issued == old(self)@.issued,
            final(self)@.cells.len() == old(self)@.cells.len(),
            forall|j: int|
                0 <= j < old(self)@.cells.len() && j != h.cell()
                    ==> final(self)@.cells[j] == old(self)@.cells[j],
    {
        let cell = vstd::std_specs::vec::vec_index_mut(&mut self.cells, h.index);
        match cell.as_mut() {
            Some(v) => v,
            None => vstd::pervasive::unreached(),
        }
    }

    /// Borrows the driver in the cell `h` names.
    pub fn get(&self, h: Handle) -> (r: &T)
        requires
            0 <= h.cell() < self@.cells.len(),
            self@.cells[h.cell()] is Some,
        ensures
            self@.cells[h.cell()] == Some(*r),
    {
        self.cells[h.index].as_ref().unwrap()
    }
}

/// Law: a finalized cell is permanent. Once `finalize` has written a cell,
/// any later `finalize` of a different slot and any later `reserve` leaves
/// that cell — and every other cell — exactly as it was, so the handle
/// returned for it refers to the same driver for the rest of the program.
/// (Finalizing the *same* cell twice is impossible one level earlier: the
/// slot is consumed by move.)
pub proof fn lemma_finalized_cell_permanent<T>(
    pre: StorageModel<T>,
    post: StorageModel<T>,
    slot: Slot,
    value: T,
    h: int,
)
    requires
        pre.wf(),
        pre.accepts(slot),
        post.cells == pre.cells.update(slot.cell(), Some(value)),
        post.issued == pre.issued,
        0 <= h < pre.cells.len(),
        h != slot.cell(),
        pre.cells[h] is Some,
    ensures
        post.wf(),
        post.cells.len() == pre.cells.len(),
        post.cells[h] == pre.cells[h],
        post.cells[h] is Some,
        post.cells[slot.cell()] == Some(value),
{
}

} // verus!
