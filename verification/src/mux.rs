//! Arbitration of one physical resource among many virtual devices.
//!
//! A [`Mux`] owns one physical peripheral and an ordered registry of virtual
//! device clients. At most one physical request is outstanding at any time;
//! a submission while another device is active is queued first-in first-out,
//! capacity permitting, and a submission beyond capacity fails synchronously
//! with a capacity error — never silently dropped. On physical completion
//! the active device's client is notified and the next queued request, if
//! any, becomes the new physical request.

use vstd::prelude::*;

verus! {

/// One virtual device's request: which device asked, and the operation
/// value handed to the physical layer (an alarm time, a transfer length).
#[derive(Clone, Copy, PartialEq, Eq, Structural, Debug)]
pub struct Request {
    /// The registered device the request belongs to.
    pub device: usize,
    /// The operation handed to the physical resource.
    pub op: u64,
}

/// How an accepted submission was taken.
#[derive(Clone, Copy, PartialEq, Eq, Structural, Debug)]
pub enum Submitted {
    /// The mux was idle: the physical request is issued at once.
    Started,
    /// Another device is active: the request waits in the FIFO queue.
    Queued,
}

/// The one synchronous failure a submission can meet: the fixed-size queue
/// is full. The caller sees it at once and may retry later.
#[derive(Clone, Copy, PartialEq, Eq, Structural, Debug)]
pub enum MuxError {
    /// Active plus queued requests already reach the mux's capacity.
    CapacityExceeded,
}

/// What a completion pass hands back: whose request finished and which
/// client callback to run with the physical result.
#[derive(Clone, Copy, PartialEq, Eq, Structural, Debug)]
pub struct Delivery {
    /// The device whose request completed.
    pub device: usize,
    /// The client registered for that device.
    pub client: usize,
    /// The physical layer's result value.
    pub result: u64,
}

/// The outcome of cancelling an outstanding request.
#[derive(Clone, Copy, PartialEq, Eq, Structural, Debug)]
pub enum Cancelled {
    /// The cancelled request was the active one; if a request was queued,
    /// it is now issued physically and carried here.
    WasActive(Option<Request>),
    /// The cancelled request was still queued; nothing physical changes.
    WasQueued,
}

/// The mathematical content of a [`Mux`].
#[verifier::ext_equal]
pub struct MuxModel {
    /// Greatest number of outstanding requests, active plus queued.
    pub capacity: int,
    /// The request the physical resource is working on, if any.
    pub active: Option<Request>,
    /// Requests waiting behind the active one, oldest first.
    pub queue: Seq<Request>,
    /// Per registered device, the client its completions go to.
    pub clients: Seq<Option<usize>>,
}

impl MuxModel {
    /// Outstanding requests: the active one plus the queued ones.
    pub open spec fn in_flight(self) -> int {
        self.queue.len() + if self.active is Some {
            1int
        } else {
            0int
        }
    }

    /// The structural invariant: sensible capacity, bounded load, and every
    /// outstanding request owned by a registered device with a client.
    pub open spec fn wf(self) -> bool {
        &&& self.capacity >= 1
        &&& self.in_flight() <= self.capacity
        &&& (self.active is None ==> self.queue.len() == 0)
        &&& (self.active matches Some(a) ==> a.device < self.clients.len()
            && self.clients[a.device as int] is Some)
        &&& forall|k: int|
            0 <= k < self.queue.len() ==> (#[trigger] self.queue[k]).device < self.clients.len()
                && self.clients[self.queue[k].device as int] is Some
    }

    /// Whether `device` has a request outstanding, active or queued.
    pub open spec fn outstanding(self, device: int) -> bool {
        ||| (self.active matches Some(a) && a.device == device)
        ||| exists|k: int| 0 <= k < self.queue.len() && (#[trigger] self.queue[k]).device == device
    }
}

/// One submission against the model: the new state, and whether the
/// request was accepted.
pub open spec fn spec_submit(m: MuxModel, r: Request) -> (MuxModel, bool) {
    if m.active is None {
        (MuxModel { active: Some(r), ..m }, true)
    } else if m.in_flight() < m.capacity {
        (MuxModel { queue: m.queue.push(r), ..m }, true)
    } else {
        (m, false)
    }
}

/// One physical completion against the model: the new state, and the
/// request that finished.
pub open spec fn spec_complete(m: MuxModel) -> (MuxModel, Request)
    recommends
        m.active is Some,
{
    let done = m.active->0;
    if m.queue.len() > 0 {
        (MuxModel { active: Some(m.queue[0]), queue: m.queue.drop_first(), ..m }, done)
    } else {
        (MuxModel { active: None, ..m }, done)
    }
}

/// A whole run of submissions, oldest first: the final state and one
/// accepted/rejected verdict per request.
pub open spec fn submit_run(m: MuxModel, reqs: Seq<Request>) -> (MuxModel, Seq<bool>)
    decreases reqs.len(),
{
    if reqs.len() == 0 {
        (m, Seq::empty())
    } else {
        let (m1, a) = spec_submit(m, reqs[0]);
        let (m2, rest) = submit_run(m1, reqs.drop_first());
        (m2, seq![a] + rest)
    }
}

/// `n` physical completions in a row: the final state and the requests
/// delivered, in completion order.
pub open spec fn drain_run(m: MuxModel, n: int) -> (MuxModel, Seq<Request>)
    decreases n,
{
    if n <= 0 || !(m.active is Some) {
        (m, Seq::empty())
    } else {
        let (m1, d) = spec_complete(m);
        let (m2, rest) = drain_run(m1, n - 1);
        (m2, seq![d] + rest)
    }
}

/// Submissions against a busy mux fill the queue in order up to capacity
/// and are rejected beyond it.
pub proof fn lemma_submit_run_busy(m: MuxModel, reqs: Seq<Request>)
    requires
        m.active is Some,
        m.in_flight() <= m.capacity,
    ensures
        ({
            let (m2, acc) = submit_run(m, reqs);
            let room = m.capacity - m.in_flight();
            let taken = if reqs.len() <= room {
                reqs.len() as int
            } else {
                room
            };
            &&& acc.len() == reqs.len()
            &&& forall|k: int| 0 <= k < taken ==> acc[k]
            &&& forall|k: int| taken <= k < reqs.len() ==> !acc[k]
            &&& m2.active == m.active
            &&& m2.capacity == m.capacity
            &&& m2.clients == m.clients
            &&& m2.queue == m.queue + reqs.take(taken)
        }),
    decreases reqs.len(),
{
    let (m2, acc) = submit_run(m, reqs);
    let room = m.capacity - m.in_flight();
    let taken = if reqs.len() <= room {
        reqs.len() as int
    } else {
        room
    };
    if reqs.len() == 0 {
        assert(m2.queue =~= m.queue + reqs.take(taken));
    } else {
        let (m1, a) = spec_submit(m, reqs[0]);
        lemma_submit_run_busy(m1, reqs.drop_first());
        let (m2x, rest) = submit_run(m1, reqs.drop_first());
        if room > 0 {
            assert(a);
            assert(m1.queue == m.queue.push(reqs[0]));
            let taken1 = if reqs.drop_first().len() <= room - 1 {
                reqs.drop_first().len() as int
            } else {
                room - 1
            };
            assert(taken1 == taken - 1);
            assert(m2.queue =~= m.queue + reqs.take(taken)) by {
                assert(m2.queue == m1.queue + reqs.drop_first().take(taken1));
                assert(m.queue.push(reqs[0]) =~= m.queue + seq![reqs[0]]);
                assert(reqs.drop_first().take(taken1) =~= reqs.subrange(1, taken));
                assert(seq![reqs[0]] + reqs.subrange(1, taken) =~= reqs.take(taken));
            }
            assert(acc =~= seq![a] + rest);
            assert(forall|k: int| 1 <= k < taken ==> acc[k] == rest[k - 1]);
        } else {
            assert(!a);
            assert(m1 == m);
            assert(m2.queue =~= m.queue + reqs.take(taken));
        }
    }
}

/// Law: a mux with capacity `N`, starting idle, accepts exactly the first
/// `N` of `N + 1` submissions and rejects exactly the last one with its
/// capacity error; the accepted requests stand in submission order, the
/// first as the active physical request and the rest queued behind it.
pub proof fn lemma_capacity_arbitration(m: MuxModel, reqs: Seq<Request>)
    requires
        m.capacity >= 1,
        m.active is None,
        m.queue.len() == 0,
        reqs.len() == m.capacity + 1,
    ensures
        ({
            let (m2, acc) = submit_run(m, reqs);
            &&& acc.len() == reqs.len()
            &&& forall|k: int| 0 <= k < reqs.len() - 1 ==> acc[k]
            &&& !acc[reqs.len() - 1]
            &&& m2.active == Some(reqs[0])
            &&& m2.queue == reqs.subrange(1, reqs.len() as int - 1)
        }),
{
    let (m1, a0) = spec_submit(m, reqs[0]);
    assert(a0);
    assert(m1.active == Some(reqs[0]));
    assert(m1.in_flight() == 1);
    lemma_submit_run_busy(m1, reqs.drop_first());
    let (m2, acc) = submit_run(m, reqs);
    let (m2x, rest) = submit_run(m1, reqs.drop_first());
    let room = m.capacity - 1;
    assert(reqs.drop_first().len() == m.capacity);
    assert(m2.queue =~= reqs.subrange(1, reqs.len() as int - 1)) by {
        assert(m2x.queue == m1.queue + reqs.drop_first().take(room));
        assert(reqs.drop_first().take(room) =~= reqs.subrange(1, reqs.len() as int - 1));
    }
    assert(acc == seq![a0] + rest);
    assert(!acc[reqs.len() - 1]) by {
        assert(!rest[reqs.len() - 2]);
    }
    assert forall|k: int| 0 <= k < reqs.len() - 1 implies acc[k] by {
        if k > 0 {
            assert(rest[k - 1]);
        }
    }
}

/// Law: draining a mux delivers completions first-in first-out — the
/// active request first, then the queued requests in the order they were
/// accepted, and the mux ends idle.
pub proof fn lemma_fifo_delivery(m: MuxModel)
    requires
        m.active is Some,
    ensures
        ({
            let (m2, delivered) = drain_run(m, m.in_flight());
            &&& delivered == seq![m.active->0] + m.queue
            &&& m2.active is None
            &&& m2.queue.len() == 0
            &&& m2.clients == m.clients
        }),
    decreases m.queue.len(),
{
    let (m1, d) = spec_complete(m);
    if m.queue.len() > 0 {
        lemma_fifo_delivery(m1);
        let (m2, rest) = drain_run(m1, m1.in_flight());
        assert(m1.in_flight() == m.in_flight() - 1);
        assert(rest == seq![m.queue[0]] + m.queue.drop_first());
        let (m2f, delivered) = drain_run(m, m.in_flight());
        assert(delivered == seq![d] + rest);
        assert(delivered =~= seq![m.active->0] + m.queue);
    } else {
        let (m2, delivered) = drain_run(m, m.in_flight());
        assert(m.in_flight() == 1);
        assert(delivered == seq![d] + drain_run(m1, 0).1);
        assert(drain_run(m1, 0).1 == Seq::<Request>::empty());
        assert(delivered =~= seq![m.active->0] + m.queue);
    }
}

/// Law: over one mux, accepted requests complete in submission order.
/// Submitting `N + 1` requests to an idle mux of capacity `N` and then
/// letting the physical resource finish them all delivers exactly the `N`
/// accepted requests, in the order they were submitted.
pub proof fn lemma_submission_order_preserved(m: MuxModel, reqs: Seq<Request>)
    requires
        m.capacity >= 1,
        m.active is None,
        m.queue.len() == 0,
        reqs.len() == m.capacity + 1,
    ensures
        ({
            let (m2, acc) = submit_run(m, reqs);
            let (m3, delivered) = drain_run(m2, m2.in_flight());
            &&& delivered == reqs.take(reqs.len() as int - 1)
            &&& m3.active is None
            &&& m3.queue.len() == 0
        }),
{
    lemma_capacity_arbitration(m, reqs);
    let (m2, acc) = submit_run(m, reqs);
    lemma_fifo_delivery(m2);
    let (m3, delivered) = drain_run(m2, m2.in_flight());
    assert(delivered =~= reqs.take(reqs.len() as int - 1)) by {
        assert(delivered == seq![reqs[0]] + reqs.subrange(1, reqs.len() as int - 1));
    }
}

/// The first index in `q` whose request belongs to `device`; `q.len()`
/// when none does.
pub open spec fn first_queued(q: Seq<Request>, device: int) -> int
    decreases q.len(),
{
    if q.len() == 0 {
        0
    } else if q[0].device == device {
        0
    } else {
        1 + first_queued(q.drop_first(), device)
    }
}

/// `first_queued` really is the least matching index, and in range when a
/// match exists.
pub proof fn lemma_first_queued(q: Seq<Request>, device: int)
    ensures
        0 <= first_queued(q, device) <= q.len(),
        first_queued(q, device) < q.len() ==> q[first_queued(q, device)].device == device,
        forall|k: int| 0 <= k < first_queued(q, device) ==> (#[trigger] q[k]).device != device,
        (exists|k: int| 0 <= k < q.len() && (#[trigger] q[k]).device == device) ==> first_queued(
            q,
            device,
        ) < q.len(),
    decreases q.len(),
{
    if q.len() > 0 && q[0].device != device {
        lemma_first_queued(q.drop_first(), device);
        let f = first_queued(q, device);
        assert forall|k: int| 0 <= k < f implies (#[trigger] q[k]).device != device by {
            if k > 0 {
                assert(q.drop_first()[k - 1].device != device);
            }
        }
        if exists|k: int| 0 <= k < q.len() && (#[trigger] q[k]).device == device {
            let k = choose|k: int| 0 <= k < q.len() && (#[trigger] q[k]).device == device;
            assert(q.drop_first()[k - 1].device == device);
        }
    }
}

/// The arbiter for one physical resource: at most one outstanding physical
/// request, a FIFO queue of waiting requests, and the device-to-client
/// registry completions fan out through.
pub struct Mux {
    capacity: usize,
    active: Option<Request>,
    queue: Vec<Request>,
    clients: Vec<Option<usize>>,
}

impl View for Mux {
    type V = MuxModel;

    closed spec fn view(&self) -> MuxModel {
        MuxModel {
            capacity: self.capacity as int,
            active: self.active,
            queue: self.queue@,
            clients: self.clients@,
        }
    }
}

impl Mux {
    /// An idle mux that will hold at most `capacity` outstanding requests,
    /// active plus queued, with no devices registered yet.
    pub fn new(capacity: usize) -> (m: Mux)
        requires
            capacity >= 1,
        ensures
            m@.wf(),
            m@.capacity == capacity,
            m@.active is None,
            m@.queue.len() == 0,
            m@.clients.len() == 0,
    {
        Mux { capacity, active: None, queue: Vec::new(), clients: Vec::new() }
    }

    /// Registers one more virtual device and returns its id. The device's
    /// client must be set before its first submission.
    pub fn register(&mut self) -> (device: usize)
        requires
            old(self)@.wf(),
            old(self)@.clients.len() < usize::MAX,
        ensures
            final(self)@.wf(),
            device == old(self)@.clients.len(),
            final(self)@.clients == old(self)@.clients.push(None),
            final(self)@.capacity == old(self)@.capacity,
            final(self)@.active == old(self)@.active,
            final(self)@.queue == old(self)@.queue,
            final(self)@.clients[device as int] is None,
    {
        let device = self.clients.len();
        self.clients.push(None);
        device
    }

    /// Sets the device's completion client. The client is set exactly once,
    /// after registration and before the device's first submission; the
    /// contract rules a second call out.
    pub fn set_client(&mut self, device: usize, client: usize)
        requires
            old(self)@.wf(),
            device < old(self)@.clients.len(),
            old(self)@.clients[device as int] is None,
        ensures
            final(self)@.wf(),
            final(self)@.clients == old(self)@.clients.update(device as int, Some(client)),
            final(self)@.capacity == old(self)@.capacity,
            final(self)@.active == old(self)@.active,
            final(self)@.queue == old(self)@.queue,
    {
        self.clients[device] = Some(client);
        proof {
            assert forall|k: int| 0 <= k < self@.queue.len() implies (
            #[trigger] self@.queue[k]).device < self@.clients.len()
                && self@.clients[self@.queue[k].device as int] is Some by {
                assert(old(self)@.clients[old(self)@.queue[k].device as int] is Some);
            }
        }
    }

    /// The client registered for `device`, if set yet.
    pub fn client_of(&self, device: usize) -> (r: Option<usize>)
        requires
            device < self@.clients.len(),
        ensures
            r == self@.clients[device as int],
    {
        self.clients[device]
    }

    /// How many devices are registered.
    pub fn device_count(&self) -> (n: usize)
        ensures
            n == self@.clients.len(),
    {
        self.clients.len()
    }

    /// The mux's capacity: the bound on outstanding requests.
    pub fn capacity(&self) -> (c: usize)
        ensures
            c as int == self@.capacity,
    {
        self.capacity
    }

    /// How many requests are outstanding, active plus queued.
    pub fn in_flight(&self) -> (n: usize)
        requires
            self@.wf(),
        ensures
            n as int == self@.in_flight(),
    {
        if self.active.is_some() {
            self.queue.len() + 1
        } else {
            self.queue.len()
        }
    }

    /// Whether no request is outstanding.
    pub fn is_idle(&self) -> (b: bool)
        ensures
            b == (self@.active is None),
    {
        self.active.is_none()
    }

    /// Submits a request for `device`. An idle mux starts the physical
    /// request at once (`Started`); a busy one queues it in FIFO order
    /// (`Queued`) while capacity lasts; at capacity the submission fails
    /// synchronously with the capacity error and nothing changes.
    pub fn submit(&mut self, device: usize, op: u64) -> (r: Result<Submitted, MuxError>)
        requires
            old(self)@.wf(),
            device < old(self)@.clients.len(),
            old(self)@.clients[device as int] is Some,
        ensures
            final(self)@.wf(),
            ({
                let (m2, accepted) = spec_submit(old(self)@, (Request { device, op }));
                &&& final(self)@ == m2
                &&& (r is Ok <==> accepted)
            }),
            old(self)@.active is None <==> r matches Ok(Submitted::Started),
            old(self)@.active is Some && old(self)@.in_flight() < old(self)@.capacity ==> (r
                matches Ok(Submitted::Queued)),
            old(self)@.active is Some && old(self)@.in_flight() == old(self)@.capacity ==> (r
                matches Err(MuxError::CapacityExceeded)) && final(self)@ == old(self)@,
    {
        let request = Request { device, op };
        if self.active.is_none() {
            self.active = Some(request);
            proof {
                assert(self@ =~~= spec_submit(old(self)@, request).0);
            }
            Ok(Submitted::Started)
        } else {
            let load = self.queue.len() + 1;
            if load < self.capacity {
                self.queue.push(request);
                proof {
                    assert(self@ =~~= spec_submit(old(self)@, request).0);
                }
                Ok(Submitted::Queued)
            } else {
                Err(MuxError::CapacityExceeded)
            }
        }
    }

    /// Reports physical completion of the active request. Returns the
    /// delivery — whose request finished and which client to call back with
    /// `result` — and, if a request was queued, the request now issued to
    /// the physical resource in its place.
    pub fn complete(&mut self, result: u64) -> (r: (Delivery, Option<Request>))
        requires
            old(self)@.wf(),
            old(self)@.active is Some,
        ensures
            final(self)@.wf(),
            ({
                let (m2, done) = spec_complete(old(self)@);
                &&& final(self)@ == m2
                &&& r.0.device == done.device
                &&& r.0.client == old(self)@.clients[done.device as int]->0
                &&& r.0.result == result
            }),
            old(self)@.queue.len() > 0 ==> r.1 == Some(old(self)@.queue[0]),
            old(self)@.queue.len() == 0 ==> r.1 is None && final(self)@.active is None,
    {
        let done = self.active.unwrap();
        let client = self.clients[done.device].unwrap();
        let next: Option<Request> = if self.queue.len() > 0 {
            let n = self.queue.remove(0);
            self.active = Some(n);
            Some(n)
        } else {
            self.active = None;
            None
        };
        proof {
            if old(self)@.queue.len() > 0 {
                assert(self@.queue =~= old(self)@.queue.drop_first());
                assert(self@ =~~= spec_complete(old(self)@).0);
            } else {
                assert(self@ =~~= spec_complete(old(self)@).0);
            }
        }
        (Delivery { device: done.device, client, result }, next)
    }

    /// Cancels `device`'s outstanding request, which only the originating
    /// device may do and only before its completion callback has fired.
    /// Cancelling the active request promotes the queue head, if any, to
    /// the physical resource; cancelling a queued request just removes it.
    pub fn cancel(&mut self, device: usize) -> (r: Cancelled)
        requires
            old(self)@.wf(),
            old(self)@.outstanding(device as int),
        ensures
            final(self)@.wf(),
            final(self)@.capacity == old(self)@.capacity,
            final(self)@.clients == old(self)@.clients,
            old(self)@.active matches Some(a) && a.device == device ==> {
                let m = old(self)@;
                &&& (m.queue.len() > 0 ==> r == Cancelled::WasActive(Some(m.queue[0]))
                    && final(self)@.active == Some(m.queue[0]) && final(self)@.queue
                    == m.queue.drop_first())
                &&& (m.queue.len() == 0 ==> r == Cancelled::WasActive(None::<Request>)
                    && final(self)@.active is None && final(self)@.queue.len() == 0)
            },
            !(old(self)@.active matches Some(a) && a.device == device) ==> {
                let m = old(self)@;
                let f = first_queued(m.queue, device as int);
                &&& r == Cancelled::WasQueued
                &&& final(self)@.active == m.active
                &&& f < m.queue.len()
                &&& final(self)@.queue == m.queue.remove(f)
            },
    {
        let is_active = match &self.active {
            Some(a) => a.device == device,
            None => false,
        };
        if is_active {
            if self.queue.len() > 0 {
                let n = self.queue.remove(0);
                self.active = Some(n);
                proof {
                    assert(self@.queue =~= old(self)@.queue.drop_first());
                }
                Cancelled::WasActive(Some(n))
            } else {
                self.active = None;
                Cancelled::WasActive(None)
            }
        } else {
            proof {
                lemma_first_queued(old(self)@.queue, device as int);
            }
            let mut i: usize = 0;
            while i < self.queue.len()
                invariant
                    old(self)@.wf(),
                    self@ == old(self)@,
                    !(old(self)@.active matches Some(a) && a.device == device),
                    i <= self.queue.len(),
                    forall|k: int| 0 <= k < i ==> (#[trigger] self.queue@[k]).device != device,
                    exists|k: int|
                        0 <= k < self.queue@.len() && (#[trigger] self.queue@[k]).device
                            == device,
                decreases self.queue.len() - i,
            {
                if self.queue[i].device == device {
                    proof {
                        lemma_first_queued(self@.queue, device as int);
                        assert(first_queued(self@.queue, device as int) == i as int);
                        old(self)@.queue.remove_ensures(i as int);
                    }
                    self.queue.remove(i);
                    proof {
                        let q0 = old(self)@.queue;
                        assert forall|k: int| 0 <= k < self@.queue.len() implies (
                        #[trigger] self@.queue[k]).device < self@.clients.len()
                            && self@.clients[self@.queue[k].device as int] is Some by {
                            if k < i {
                                assert(self@.queue[k] == q0[k]);
                            } else {
                                assert(self@.queue[k] == q0[k + 1]);
                            }
                        }
                    }
                    return Cancelled::WasQueued;
                }
                i = i + 1;
            }
            proof {
                let k = choose|k: int|
                    0 <= k < self.queue@.len() && (#[trigger] self.queue@[k]).device == device;
                assert(false);
            }
            Cancelled::WasQueued
        }
    }
}

} // verus!
