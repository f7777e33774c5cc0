//! The cooperative dispatch core: deferred-task bits, the interrupt
//! controller's pending and enabled bits, the vector-to-handler table, and
//! the two-phase service pass over them.
//!
//! A pass drains every software-deferred task first, then every pending,
//! enabled hardware vector in vector order; each item is serviced exactly
//! once, a serviced vector is cleared and re-enabled, and a vector nobody
//! mapped halts the pass with a diagnostic naming it. The pass returns the
//! dispatch trace — which handler ran, in which order — so the board can
//! drive the real driver entry points from it.

use vstd::prelude::*;

verus! {

/// The indices at or after `i` whose bit in `s` is set, in ascending order.
pub open spec fn set_bits_from(s: Seq<bool>, i: int) -> Seq<int>
    decreases s.len() - i,
{
    if 0 <= i < s.len() {
        if s[i] {
            seq![i] + set_bits_from(s, i + 1)
        } else {
            set_bits_from(s, i + 1)
        }
    } else {
        Seq::empty()
    }
}

/// The indices whose bit in `s` is set, in ascending order.
pub open spec fn set_bits(s: Seq<bool>) -> Seq<int> {
    set_bits_from(s, 0)
}

/// Pointwise conjunction: the vectors that are both pending and enabled.
pub open spec fn live(pending: Seq<bool>, enabled: Seq<bool>) -> Seq<bool> {
    Seq::new(pending.len(), |i: int| pending[i] && enabled[i])
}

/// `set_bits_from` lists set indices only, each exactly once, in ascending
/// order, and misses none.
pub proof fn lemma_set_bits_from_props(s: Seq<bool>, i: int)
    requires
        0 <= i,
    ensures
        forall|k: int|
            0 <= k < set_bits_from(s, i).len() ==> i <= #[trigger] set_bits_from(s, i)[k]
                < s.len() && s[set_bits_from(s, i)[k]],
        forall|k1: int, k2: int|
            0 <= k1 < k2 < set_bits_from(s, i).len() ==> #[trigger] set_bits_from(s, i)[k1]
                < #[trigger] set_bits_from(s, i)[k2],
        forall|j: int| i <= j < s.len() && s[j] ==> #[trigger] set_bits_from(s, i).contains(j),
    decreases s.len() - i,
{
    if 0 <= i < s.len() {
        lemma_set_bits_from_props(s, i + 1);
        let tail = set_bits_from(s, i + 1);
        if s[i] {
            let r = seq![i] + tail;
            assert(set_bits_from(s, i) == r);
            assert forall|k: int| 0 <= k < r.len() implies i <= #[trigger] r[k] < s.len()
                && s[r[k]] by {
                if k > 0 {
                    assert(r[k] == tail[k - 1]);
                }
            }
            assert forall|k1: int, k2: int| 0 <= k1 < k2 < r.len() implies #[trigger] r[k1]
                < #[trigger] r[k2] by {
                if k1 > 0 {
                    assert(r[k1] == tail[k1 - 1] && r[k2] == tail[k2 - 1]);
                } else {
                    assert(r[k2] == tail[k2 - 1]);
                    assert(i + 1 <= tail[k2 - 1]);
                }
            }
            assert forall|j: int| i <= j < s.len() && s[j] implies set_bits_from(
                s,
                i,
            ).contains(j) by {
                if j == i {
                    assert(r[0] == i);
                    assert(r.contains(j));
                } else {
                    assert(tail.contains(j));
                    let k = choose|k: int| 0 <= k < tail.len() && tail[k] == j;
                    assert(r[k + 1] == j);
                    assert(r.contains(j));
                }
            }
        } else {
            assert forall|j: int| i <= j < s.len() && s[j] implies set_bits_from(
                s,
                i,
            ).contains(j) by {
                assert(j != i);
                assert(tail.contains(j));
            }
        }
    }
}

/// Skipping a stretch of clear bits does not change the listing.
pub proof fn lemma_set_bits_from_skip(s: Seq<bool>, i: int, j: int)
    requires
        0 <= i <= j <= s.len(),
        forall|k: int| i <= k < j ==> !s[k],
    ensures
        set_bits_from(s, i) == set_bits_from(s, j),
    decreases j - i,
{
    if i < j {
        lemma_set_bits_from_skip(s, i + 1, j);
    }
}

/// Two bit rows that agree from `i` on have the same listing from `i`.
pub proof fn lemma_set_bits_from_agree(s1: Seq<bool>, s2: Seq<bool>, i: int)
    requires
        s1.len() == s2.len(),
        forall|k: int| i <= k < s1.len() ==> s1[k] == s2[k],
    ensures
        set_bits_from(s1, i) == set_bits_from(s2, i),
    decreases s1.len() - i,
{
    if 0 <= i < s1.len() {
        lemma_set_bits_from_agree(s1, s2, i + 1);
    }
}

/// Clearing the first set bit drops exactly the head of the listing.
pub proof fn lemma_clear_first(s: Seq<bool>, j: int)
    requires
        0 <= j < s.len(),
        s[j],
        forall|k: int| 0 <= k < j ==> !s[k],
    ensures
        set_bits(s) == seq![j] + set_bits_from(s, j + 1),
        set_bits(s)[0] == j,
        set_bits(s.update(j, false)) == set_bits(s).drop_first(),
    decreases 0int,
{
    lemma_set_bits_from_skip(s, 0, j);
    assert(set_bits_from(s, j) == seq![j] + set_bits_from(s, j + 1));
    let s2 = s.update(j, false);
    lemma_set_bits_from_skip(s2, 0, j + 1);
    lemma_set_bits_from_agree(s, s2, j + 1);
    assert((seq![j] + set_bits_from(s, j + 1)).drop_first() =~= set_bits_from(s, j + 1));
}

/// One dispatched item of a service pass.
#[derive(Clone, Copy, PartialEq, Eq, Structural, Debug)]
pub enum Dispatched {
    /// A software-deferred task was handed to its owning driver.
    Deferred {
        /// The deferred task's id.
        task: usize,
    },
    /// A pending hardware vector was handed to its mapped handler.
    Vector {
        /// The interrupt vector number.
        vector: usize,
        /// The handler the table maps that vector to.
        handler: usize,
    },
}

/// The fatal outcome of a pass: an enabled vector fired with no handler
/// mapped, which is a defect in the static wiring graph. The diagnostic
/// names the vector; the board halts on it instead of continuing silently.
#[derive(Clone, Copy, PartialEq, Eq, Structural, Debug)]
pub struct Fault {
    vector: usize,
}

impl Fault {
    /// The unmapped vector, as the contracts see it.
    pub closed spec fn spec_vector(&self) -> int {
        self.vector as int
    }

    /// A diagnostic for the wiring defect of `vector`.
    pub fn unmapped(vector: usize) -> (f: Fault)
        ensures
            f.spec_vector() == vector as int,
    {
        Fault { vector }
    }

    /// The unmapped vector the diagnostic names.
    pub fn vector(&self) -> (v: usize)
        ensures
            v as int == self.spec_vector(),
    {
        self.vector
    }

    /// The diagnostic text, naming the unmapped vector in decimal.
    pub fn message(&self) -> (s: String)
        ensures
            s@ == "unhandled interrupt vector "@ + decimal(self.spec_vector()),
    {
        let mut s = String::from_str("unhandled interrupt vector ");
        append_decimal(&mut s, self.vector);
        s
    }
}

/// The character for one decimal digit.
pub open spec fn digit_char(d: int) -> char {
    if d == 0 {
        '0'
    } else if d == 1 {
        '1'
    } else if d == 2 {
        '2'
    } else if d == 3 {
        '3'
    } else if d == 4 {
        '4'
    } else if d == 5 {
        '5'
    } else if d == 6 {
        '6'
    } else if d == 7 {
        '7'
    } else if d == 8 {
        '8'
    } else {
        '9'
    }
}

/// The decimal numeral of `n`, most significant digit first.
pub open spec fn decimal(n: int) -> Seq<char>
    decreases n,
{
    if n < 0 {
        Seq::empty()
    } else if n < 10 {
        seq![digit_char(n)]
    } else {
        decimal(n / 10) + seq![digit_char(n % 10)]
    }
}

/// The one-character string for one decimal digit.
fn digit_str(d: usize) -> (r: &'static str)
    requires
        d < 10,
    ensures
        r@ == seq![digit_char(d as int)],
{
    proof {
        reveal_strlit("0");
        reveal_strlit("1");
        reveal_strlit("2");
        reveal_strlit("3");
        reveal_strlit("4");
        reveal_strlit("5");
        reveal_strlit("6");
        reveal_strlit("7");
        reveal_strlit("8");
        reveal_strlit("9");
    }
    match d {
        0 => "0",
        1 => "1",
        2 => "2",
        3 => "3",
        4 => "4",
        5 => "5",
        6 => "6",
        7 => "7",
        8 => "8",
        _ => "9",
    }
}

/// Appends the decimal numeral of `n` to `s`.
fn append_decimal(s: &mut String, n: usize)
    ensures
        final(s)@ == old(s)@ + decimal(n as int),
    decreases n,
{
    if n >= 10 {
        append_decimal(s, n / 10);
        s.append(digit_str(n % 10));
        proof {
            assert(old(s)@ + decimal((n / 10) as int) + seq![digit_char((n % 10) as int)]
                =~= old(s)@ + decimal(n as int));
        }
    } else {
        s.append(digit_str(n));
        proof {
            assert(old(s)@ + seq![digit_char(n as int)] =~= old(s)@ + decimal(n as int));
        }
    }
}

/// The trace a run of deferred tasks leaves: one entry per task id.
pub open spec fn deferred_trace(tasks: Seq<int>) -> Seq<Dispatched> {
    Seq::new(tasks.len(), |k: int| Dispatched::Deferred { task: tasks[k] as usize })
}

/// The trace a run of vectors leaves under `table`: one entry per vector,
/// paired with its mapped handler.
pub open spec fn vector_trace(vectors: Seq<int>, table: Seq<Option<usize>>) -> Seq<Dispatched> {
    Seq::new(
        vectors.len(),
        |k: int|
            Dispatched::Vector { vector: vectors[k] as usize, handler: table[vectors[k]]->0 },
    )
}

/// How many vectors, in listing order, are mapped before the first unmapped
/// one; the whole length when every listed vector is mapped.
pub open spec fn mapped_prefix(vectors: Seq<int>, table: Seq<Option<usize>>) -> int
    decreases vectors.len(),
{
    if vectors.len() == 0 {
        0
    } else if table[vectors[0]] is Some {
        1 + mapped_prefix(vectors.drop_first(), table)
    } else {
        0
    }
}

/// `mapped_prefix` is exactly the count of leading mapped vectors.
pub proof fn lemma_mapped_prefix(vectors: Seq<int>, table: Seq<Option<usize>>, j: int)
    requires
        0 <= j <= vectors.len(),
        forall|k: int| 0 <= k < j ==> table[#[trigger] vectors[k]] is Some,
        j < vectors.len() ==> table[vectors[j]] is None,
    ensures
        mapped_prefix(vectors, table) == j,
    decreases vectors.len(),
{
    if vectors.len() > 0 && j > 0 {
        let tail = vectors.drop_first();
        assert forall|k: int| 0 <= k < j - 1 implies table[#[trigger] tail[k]] is Some by {
            assert(tail[k] == vectors[k + 1]);
        }
        if j - 1 < tail.len() {
            assert(tail[j - 1] == vectors[j]);
        }
        lemma_mapped_prefix(tail, table, j - 1);
    }
}

/// The set of software-deferred bottom-half tasks drivers have raised and
/// the loop has not yet serviced.
pub struct DeferredQueue {
    pending: Vec<bool>,
}

impl View for DeferredQueue {
    type V = Seq<bool>;

    closed spec fn view(&self) -> Seq<bool> {
        self.pending@
    }
}

impl DeferredQueue {
    /// An empty task set over `tasks` task ids.
    pub fn new(tasks: usize) -> (q: DeferredQueue)
        ensures
            q@.len() == tasks,
            forall|j: int| 0 <= j < tasks ==> !q@[j],
    {
        let mut pending: Vec<bool> = Vec::new();
        let mut n: usize = 0;
        while n < tasks
            invariant
                n == pending.len(),
                n <= tasks,
                forall|j: int| 0 <= j < n ==> !pending@[j],
            decreases tasks - n,
        {
            pending.push(false);
            n = n + 1;
        }
        DeferredQueue { pending }
    }

    /// How many task ids exist.
    pub fn len(&self) -> (n: usize)
        ensures
            n == self@.len(),
    {
        self.pending.len()
    }

    /// A driver raises task `task` for bottom-half service. Raising an
    /// already-raised task is harmless: the set absorbs it.
    pub fn post(&mut self, task: usize)
        requires
            task < old(self)@.len(),
        ensures
            final(self)@ == old(self)@.update(task as int, true),
    {
        self.pending[task] = true;
    }

    /// Whether any task is raised.
    pub fn has_tasks(&self) -> (b: bool)
        ensures
            b == exists|j: int| 0 <= j < self@.len() && self@[j],
    {
        let mut i: usize = 0;
        while i < self.pending.len()
            invariant
                i <= self.pending.len(),
                forall|j: int| 0 <= j < i ==> !self.pending@[j],
            decreases self.pending.len() - i,
        {
            if self.pending[i] {
                proof {
                    assert(self@[i as int]);
                }
                return true;
            }
            i = i + 1;
        }
        false
    }

    /// Takes the lowest raised task out of the set, or `None` when the set
    /// is empty.
    pub fn pop_next(&mut self) -> (r: Option<usize>)
        ensures
            final(self)@.len() == old(self)@.len(),
            r is None ==> final(self)@ == old(self)@ && set_bits(old(self)@).len() == 0 && (
            forall|j: int| 0 <= j < old(self)@.len() ==> !old(self)@[j]),
            r matches Some(t) ==> {
                &&& set_bits(old(self)@).len() > 0
                &&& t as int == set_bits(old(self)@)[0]
                &&& final(self)@ == old(self)@.update(t as int, false)
                &&& set_bits(final(self)@) == set_bits(old(self)@).drop_first()
            },
    {
        let mut i: usize = 0;
        while i < self.pending.len()
            invariant
                self@ == old(self)@,
                i <= self.pending.len(),
                forall|j: int| 0 <= j < i ==> !self.pending@[j],
            decreases self.pending.len() - i,
        {
            if self.pending[i] {
                proof {
                    lemma_clear_first(self@, i as int);
                }
                self.pending[i] = false;
                return Some(i);
            }
            i = i + 1;
        }
        proof {
            lemma_set_bits_from_skip(self@, 0, self@.len() as int);
        }
        None
    }
}

/// The interrupt controller's view of its vectors: two bit rows of equal
/// width, pending and enabled.
pub struct CtrlModel {
    /// Pending bit per vector; only a hardware assertion sets one.
    pub pending: Seq<bool>,
    /// Enable bit per vector.
    pub enabled: Seq<bool>,
}

impl CtrlModel {
    /// The two rows cover the same vectors.
    pub open spec fn wf(self) -> bool {
        self.pending.len() == self.enabled.len()
    }

    /// The vectors the service loop owes work for: pending and enabled.
    pub open spec fn live_bits(self) -> Seq<int> {
        set_bits(live(self.pending, self.enabled))
    }
}

/// The hardware interrupt controller: a pending bit and an enable bit per
/// vector. Only [`InterruptController::assert_irq`] — the model of a
/// genuine hardware assertion — ever sets a pending bit; every other
/// operation leaves pending bits alone or clears them.
pub struct InterruptController {
    pending: Vec<bool>,
    enabled: Vec<bool>,
}

impl View for InterruptController {
    type V = CtrlModel;

    closed spec fn view(&self) -> CtrlModel {
        CtrlModel { pending: self.pending@, enabled: self.enabled@ }
    }
}

impl InterruptController {
    /// A controller over `vectors` vectors, none pending, none enabled.
    pub fn new(vectors: usize) -> (c: InterruptController)
        ensures
            c@.wf(),
            c@.pending.len() == vectors,
            forall|j: int| 0 <= j < vectors ==> !c@.pending[j] && !c@.enabled[j],
    {
        let mut pending: Vec<bool> = Vec::new();
        let mut enabled: Vec<bool> = Vec::new();
        let mut n: usize = 0;
        while n < vectors
            invariant
                n == pending.len(),
                n == enabled.len(),
                n <= vectors,
                forall|j: int| 0 <= j < n ==> !pending@[j] && !enabled@[j],
            decreases vectors - n,
        {
            pending.push(false);
            enabled.push(false);
            n = n + 1;
        }
        InterruptController { pending, enabled }
    }

    /// How many vectors the controller has.
    pub fn len(&self) -> (n: usize)
        ensures
            n == self@.pending.len(),
    {
        self.pending.len()
    }

    /// Whether `vector` is pending.
    pub fn is_pending(&self, vector: usize) -> (b: bool)
        requires
            vector < self@.pending.len(),
        ensures
            b == self@.pending[vector as int],
    {
        self.pending[vector]
    }

    /// Whether `vector` is enabled.
    pub fn is_enabled(&self, vector: usize) -> (b: bool)
        requires
            self@.wf(),
            vector < self@.pending.len(),
        ensures
            b == self@.enabled[vector as int],
    {
        self.enabled[vector]
    }

    /// Unmasks `vector`.
    pub fn enable(&mut self, vector: usize)
        requires
            old(self)@.wf(),
            vector < old(self)@.pending.len(),
        ensures
            final(self)@.wf(),
            final(self)@.pending == old(self)@.pending,
            final(self)@.enabled == old(self)@.enabled.update(vector as int, true),
    {
        self.enabled[vector] = true;
    }

    /// Masks `vector`.
    pub fn disable(&mut self, vector: usize)
        requires
            old(self)@.wf(),
            vector < old(self)@.pending.len(),
        ensures
            final(self)@.wf(),
            final(self)@.pending == old(self)@.pending,
            final(self)@.enabled == old(self)@.enabled.update(vector as int, false),
    {
        self.enabled[vector] = false;
    }

    /// A genuine hardware assertion of `vector`: the one way a pending bit
    /// turns on.
    pub fn assert_irq(&mut self, vector: usize)
        requires
            old(self)@.wf(),
            vector < old(self)@.pending.len(),
        ensures
            final(self)@.wf(),
            final(self)@.pending == old(self)@.pending.update(vector as int, true),
            final(self)@.enabled == old(self)@.enabled,
    {
        self.pending[vector] = true;
    }

    /// Clears the pending bit of `vector`, as the loop does after its
    /// handler has run.
    pub fn clear_pending(&mut self, vector: usize)
        requires
            old(self)@.wf(),
            vector < old(self)@.pending.len(),
        ensures
            final(self)@.wf(),
            final(self)@.pending == old(self)@.pending.update(vector as int, false),
            final(self)@.enabled == old(self)@.enabled,
    {
        self.pending[vector] = false;
    }

    /// The lowest pending-and-enabled vector, or `None` when no enabled
    /// vector is pending. Does not change any bit: the pending bit stays
    /// up until the handler has run and the loop clears it.
    pub fn next_live(&self) -> (r: Option<usize>)
        requires
            self@.wf(),
        ensures
            r is None ==> self@.live_bits().len() == 0,
            r matches Some(v) ==> {
                &&& self@.live_bits().len() > 0
                &&& v as int == self@.live_bits()[0]
                &&& v < self@.pending.len()
                &&& self@.pending[v as int] && self@.enabled[v as int]
                &&& forall|k: int|
                    0 <= k < v ==> !(self@.pending[k] && self@.enabled[k])
            },
    {
        let mut i: usize = 0;
        while i < self.pending.len()
            invariant
                self@.wf(),
                i <= self.pending.len(),
                forall|j: int| 0 <= j < i ==> !(self.pending@[j] && self.enabled@[j]),
            decreases self.pending.len() - i,
        {
            if self.pending[i] && self.enabled[i] {
                proof {
                    let lv = live(self@.pending, self@.enabled);
                    lemma_clear_first(lv, i as int);
                }
                return Some(i);
            }
            i = i + 1;
        }
        proof {
            let lv = live(self@.pending, self@.enabled);
            lemma_set_bits_from_skip(lv, 0, lv.len() as int);
        }
        None
    }

    /// Whether any enabled vector is pending.
    pub fn has_pending(&self) -> (b: bool)
        requires
            self@.wf(),
        ensures
            b == (self@.live_bits().len() > 0),
    {
        match self.next_live() {
            Some(_) => true,
            None => false,
        }
    }
}

/// The static map from interrupt vector to the handler that services it,
/// populated once during board construction and read-only afterwards.
pub struct DispatchTable {
    handlers: Vec<Option<usize>>,
}

impl View for DispatchTable {
    type V = Seq<Option<usize>>;

    closed spec fn view(&self) -> Seq<Option<usize>> {
        self.handlers@
    }
}

impl DispatchTable {
    /// A table over `vectors` vectors with nothing mapped.
    pub fn new(vectors: usize) -> (t: DispatchTable)
        ensures
            t@.len() == vectors,
            forall|j: int| 0 <= j < vectors ==> t@[j] is None,
    {
        let mut handlers: Vec<Option<usize>> = Vec::new();
        let mut n: usize = 0;
        while n < vectors
            invariant
                n == handlers.len(),
                n <= vectors,
                forall|j: int| 0 <= j < n ==> handlers@[j] is None,
            decreases vectors - n,
        {
            handlers.push(None);
            n = n + 1;
        }
        DispatchTable { handlers }
    }

    /// How many vectors the table covers.
    pub fn len(&self) -> (n: usize)
        ensures
            n == self@.len(),
    {
        self.handlers.len()
    }

    /// Maps `vector` to `handler`. Each vector is mapped at most once, at
    /// construction time; remapping is a wiring defect and is ruled out by
    /// contract.
    pub fn map_handler(&mut self, vector: usize, handler: usize)
        requires
            vector < old(self)@.len(),
            old(self)@[vector as int] is None,
        ensures
            final(self)@ == old(self)@.update(vector as int, Some(handler)),
    {
        self.handlers[vector] = Some(handler);
    }

    /// The handler mapped to `vector`, if any.
    pub fn handler(&self, vector: usize) -> (r: Option<usize>)
        requires
            vector < self@.len(),
        ensures
            r == self@[vector as int],
    {
        self.handlers[vector]
    }
}

/// One full service pass, run until both work sets are empty or a wiring
/// defect halts it.
///
/// Phase one drains the deferred-task set in task order; phase two services
/// the pending, enabled vectors in vector order, clearing and re-enabling
/// each after its handler entry is recorded. Every queued deferred task is
/// dispatched before any hardware vector, each item exactly once. A live
/// vector with no mapped handler stops the pass at once with a [`Fault`]
/// naming it; vectors after it stay pending.
pub fn service_pass(
    deferred: &mut DeferredQueue,
    ctrl: &mut InterruptController,
    table: &DispatchTable,
) -> (r: (Vec<Dispatched>, Result<(), Fault>))
    requires
        old(ctrl)@.wf(),
        table@.len() == old(ctrl)@.pending.len(),
    ensures
        final(ctrl)@.wf(),
        ({
            let dbits = set_bits(old(deferred)@);
            let vbits = old(ctrl)@.live_bits();
            let m = mapped_prefix(vbits, table@);
            &&& r.0@ == deferred_trace(dbits) + vector_trace(vbits.take(m), table@)
            &&& final(deferred)@.len() == old(deferred)@.len()
            &&& forall|j: int| 0 <= j < final(deferred)@.len() ==> !final(deferred)@[j]
            &&& final(ctrl)@.enabled == old(ctrl)@.enabled
            &&& final(ctrl)@.pending.len() == old(ctrl)@.pending.len()
            &&& forall|j: int|
                0 <= j < final(ctrl)@.pending.len() ==> final(ctrl)@.pending[j] == (old(
                    ctrl,
                )@.pending[j] && !vbits.take(m).contains(j))
            &&& (m == vbits.len() ==> r.1 is Ok && final(ctrl)@.live_bits().len() == 0)
            &&& (m < vbits.len() ==> {
                &&& (r.1 matches Err(f) && f.spec_vector() == vbits[m])
                &&& table@[vbits[m]] is None
            })
            &&& forall|k: int| 0 <= k < m ==> table@[#[trigger] vbits[k]] is Some
        }),
{
    let mut trace: Vec<Dispatched> = Vec::new();
    let ghost dbits = set_bits(old(deferred)@);
    proof {
        lemma_set_bits_from_props(old(deferred)@, 0);
    }

    // Phase one: drain every deferred bottom-half task, lowest id first.
    loop
        invariant
            deferred@.len() == old(deferred)@.len(),
            trace@.len() <= dbits.len(),
            set_bits(deferred@) == dbits.skip(trace@.len() as int),
            trace@ == deferred_trace(dbits.take(trace@.len() as int)),
        ensures
            trace@ == deferred_trace(dbits),
            deferred@.len() == old(deferred)@.len(),
            forall|j: int| 0 <= j < deferred@.len() ==> !deferred@[j],
        decreases dbits.len() - trace@.len(),
    {
        let popped = deferred.pop_next();
        match popped {
            Some(task) => {
                proof {
                    let k = trace@.len() as int;
                    assert(dbits.skip(k)[0] == dbits[k]);
                    assert(dbits.skip(k).drop_first() =~= dbits.skip(k + 1));
                    assert(deferred_trace(dbits.take(k)).push(
                        Dispatched::Deferred { task: dbits[k] as usize },
                    ) =~= deferred_trace(dbits.take(k + 1)));
                }
                trace.push(Dispatched::Deferred { task });
            },
            None => {
                proof {
                    assert(dbits.skip(trace@.len() as int).len() == 0);
                    assert(trace@.len() == dbits.len());
                    assert(dbits.take(dbits.len() as int) =~= dbits);
                }
                break ;
            },
        }
    }

    let ghost dtrace = deferred_trace(dbits);
    let ghost p0 = old(ctrl)@.pending;
    let ghost e0 = old(ctrl)@.enabled;
    let ghost vbits = old(ctrl)@.live_bits();
    let ghost mfull = mapped_prefix(vbits, table@);
    proof {
        lemma_set_bits_from_props(live(p0, e0), 0);
    }
    let ghost mut count: int = 0;
    let mut outcome: Result<(), Fault> = Ok(());

    // Phase two: service pending, enabled vectors in vector order; halt on
    // the first one nobody mapped.
    loop
        invariant_except_break
            outcome is Ok,
        invariant
            ctrl@.wf(),
            0 <= count <= vbits.len(),
            mfull == mapped_prefix(vbits, table@),
            ctrl@.enabled == e0,
            ctrl@.pending.len() == p0.len(),
            table@.len() == p0.len(),
            set_bits(live(ctrl@.pending, ctrl@.enabled)) == vbits.skip(count),
            forall|j: int|
                0 <= j < p0.len() ==> (#[trigger] ctrl@.pending[j]) == (p0[j] && !vbits.take(
                    count,
                ).contains(j)),
            trace@ == dtrace + vector_trace(vbits.take(count), table@),
            forall|k: int| 0 <= k < count ==> table@[#[trigger] vbits[k]] is Some,
        ensures
            ctrl@.wf(),
            ctrl@.enabled == e0,
            ctrl@.pending.len() == p0.len(),
            set_bits(live(ctrl@.pending, ctrl@.enabled)) == vbits.skip(mfull),
            trace@ == dtrace + vector_trace(vbits.take(mfull), table@),
            forall|j: int|
                0 <= j < p0.len() ==> ctrl@.pending[j] == (p0[j] && !vbits.take(mfull).contains(
                    j,
                )),
            mfull == vbits.len() ==> outcome is Ok,
            mfull < vbits.len() ==> (outcome matches Err(f) && f.spec_vector() == vbits[mfull])
                && table@[vbits[mfull]] is None,
            forall|k: int| 0 <= k < mfull ==> table@[#[trigger] vbits[k]] is Some,
        decreases vbits.len() - count,
    {
        let next = ctrl.next_live();
        match next {
            Some(vector) => {
                proof {
                    assert(vbits.skip(count)[0] == vbits[count]);
                }
                match table.handler(vector) {
                    Some(handler) => {
                        let ghost pprev = ctrl@.pending;
                        let ghost eprev = ctrl@.enabled;
                        proof {
                            lemma_clear_first(live(pprev, eprev), vector as int);
                        }
                        trace.push(Dispatched::Vector { vector, handler });
                        ctrl.clear_pending(vector);
                        ctrl.enable(vector);
                        proof {
                            let v = vector as int;
                            assert(ctrl@.enabled =~= e0);
                            assert(live(ctrl@.pending, ctrl@.enabled) =~= live(
                                pprev,
                                eprev,
                            ).update(v, false));
                            assert(set_bits(live(ctrl@.pending, ctrl@.enabled)) == vbits.skip(
                                count + 1,
                            )) by {
                                assert(live(ctrl@.pending, ctrl@.enabled) == live(
                                    pprev,
                                    eprev,
                                ).update(v, false));
                                assert(vbits.skip(count).drop_first() =~= vbits.skip(count + 1));
                            }
                            assert forall|j: int| 0 <= j < p0.len() implies ctrl@.pending[j] == (
                            p0[j] && !vbits.take(count + 1).contains(j)) by {
                                assert(ctrl@.pending[j] == pprev.update(v, false)[j]);
                                assert(pprev[j] == (p0[j] && !vbits.take(count).contains(j)));
                                if j == v {
                                    assert(vbits.take(count + 1)[count] == v);
                                    assert(vbits.take(count + 1).contains(v));
                                } else {
                                    assert(vbits.take(count + 1).contains(j) == vbits.take(
                                        count,
                                    ).contains(j)) by {
                                        if vbits.take(count).contains(j) {
                                            let k = choose|k: int|
                                                0 <= k < count && vbits.take(count)[k] == j;
                                            assert(vbits.take(count + 1)[k] == j);
                                        }
                                        if vbits.take(count + 1).contains(j) {
                                            let k = choose|k: int|
                                                0 <= k < count + 1 && #[trigger] vbits.take(
                                                    count + 1,
                                                )[k] == j;
                                            if k < count {
                                                assert(vbits.take(count)[k] == j);
                                            }
                                        }
                                    }
                                }
                            }
                            assert(trace@ =~= dtrace + vector_trace(
                                vbits.take(count + 1),
                                table@,
                            ));
                            count = count + 1;
                        }
                    },
                    None => {
                        outcome = Err(Fault::unmapped(vector));
                        proof {
                            assert(table@[vbits[count]] is None);
                            lemma_mapped_prefix(vbits, table@, count);
                        }
                        break ;
                    },
                }
            },
            None => {
                proof {
                    assert(vbits.skip(count).len() == 0);
                    assert(count == vbits.len());
                    lemma_mapped_prefix(vbits, table@, count);
                    assert(vbits.take(count) =~= vbits);
                }
                break ;
            },
        }
    }

    (trace, outcome)
}

/// Law: one pass dispatches every queued deferred task before any pending
/// hardware vector, and each of the queued-plus-pending items exactly once.
/// The trace named here is the one `service_pass` returns when every live
/// vector is mapped.
pub proof fn lemma_pass_dispatches_once(
    d: Seq<bool>,
    p: Seq<bool>,
    e: Seq<bool>,
    table: Seq<Option<usize>>,
)
    requires
        p.len() == e.len(),
        d.len() <= usize::MAX,
        p.len() <= usize::MAX,
    ensures
        ({
            let tr = deferred_trace(set_bits(d)) + vector_trace(set_bits(live(p, e)), table);
            &&& forall|k1: int, k2: int| 0 <= k1 < k2 < tr.len() ==> tr[k1] != tr[k2]
            &&& forall|k1: int, k2: int|
                0 <= k1 < tr.len() && 0 <= k2 < tr.len() && tr[k1] is Deferred
                    && tr[k2] is Vector ==> k1 < k2
            &&& forall|t: int|
                0 <= t < d.len() && d[t] ==> tr.contains(
                    (Dispatched::Deferred { task: t as usize }),
                )
            &&& forall|k: int|
                0 <= k < tr.len() && tr[k] is Deferred ==> {
                    let t = tr[k]->Deferred_task as int;
                    0 <= t < d.len() && d[t]
                }
            &&& forall|k: int|
                0 <= k < tr.len() && tr[k] is Vector ==> {
                    let v = tr[k]->Vector_vector as int;
                    0 <= v < p.len() && p[v] && e[v]
                }
            &&& forall|v: int|
                0 <= v < p.len() && p[v] && e[v] ==> exists|k: int|
                    0 <= k < tr.len() && #[trigger] tr[k] == (Dispatched::Vector {
                        vector: v as usize,
                        handler: table[v]->0,
                    })
        }),
{
    let db = set_bits(d);
    let lv = live(p, e);
    let vb = set_bits(lv);
    let tr = deferred_trace(db) + vector_trace(vb, table);
    lemma_set_bits_from_props(d, 0);
    lemma_set_bits_from_props(lv, 0);
    assert forall|k: int| 0 <= k < db.len() implies #[trigger] tr[k] == (Dispatched::Deferred {
        task: db[k] as usize,
    }) by {
        assert(tr[k] == deferred_trace(db)[k]);
    }
    assert forall|k: int| db.len() <= k < tr.len() implies #[trigger] tr[k]
        == (Dispatched::Vector {
        vector: vb[k - db.len()] as usize,
        handler: table[vb[k - db.len()]]->0,
    }) by {
        assert(tr[k] == vector_trace(vb, table)[k - db.len()]);
    }
    assert forall|k1: int, k2: int| 0 <= k1 < k2 < tr.len() implies tr[k1] != tr[k2] by {
        if k2 < db.len() {
            assert(db[k1] < db[k2]);
        } else if k1 >= db.len() {
            assert(vb[k1 - db.len()] < vb[k2 - db.len()]);
        } else {
            assert(tr[k1] is Deferred && tr[k2] is Vector);
        }
    }
    assert forall|t: int| 0 <= t < d.len() && d[t] implies tr.contains(
        (Dispatched::Deferred { task: t as usize }),
    ) by {
        assert(db.contains(t));
        let k = choose|k: int| 0 <= k < db.len() && db[k] == t;
        assert(tr[k] == (Dispatched::Deferred { task: t as usize }));
    }
    assert forall|v: int| 0 <= v < p.len() && p[v] && e[v] implies exists|k: int|
        0 <= k < tr.len() && #[trigger] tr[k] == (Dispatched::Vector {
            vector: v as usize,
            handler: table[v]->0,
        }) by {
        assert(lv[v]);
        assert(vb.contains(v));
        let k = choose|k: int| 0 <= k < vb.len() && vb[k] == v;
        assert(tr[db.len() + k] == (Dispatched::Vector {
            vector: v as usize,
            handler: table[v]->0,
        }));
    }
}

/// Law: a vector serviced by a completed pass does not re-fire from
/// residual state — its pending bit reads zero afterwards, and stays zero
/// under every controller operation except a genuine new hardware
/// assertion, while its enable bit is back on.
pub proof fn lemma_serviced_vector_quiescent(m: CtrlModel, post: CtrlModel, v: int)
    requires
        m.wf(),
        post.enabled == m.enabled,
        post.pending.len() == m.pending.len(),
        forall|j: int|
            0 <= j < post.pending.len() ==> post.pending[j] == (m.pending[j]
                && !m.live_bits().take(m.live_bits().len() as int).contains(j)),
        0 <= v < m.pending.len(),
        m.pending[v],
        m.enabled[v],
    ensures
        !post.pending[v],
        post.enabled[v],
{
    let lv = live(m.pending, m.enabled);
    lemma_set_bits_from_props(lv, 0);
    assert(lv[v]);
    assert(set_bits(lv).contains(v));
    assert(m.live_bits().take(m.live_bits().len() as int) =~= m.live_bits());
}

} // verus!
