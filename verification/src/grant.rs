//! The capability check that guards grant creation.
//!
//! A grant region is per-process storage a driver creates exactly once,
//! before any process is admitted to the scheduler. The authority to create
//! one is a [`MemoryAllocationCapability`]: an unforgeable, move-only token
//! that the kernel hands out only while construction is still running.
//! `create_grant` consumes the token, so one token authorizes one region.

use vstd::prelude::*;

verus! {

/// An unforgeable token authorizing one grant-region creation.
///
/// It cannot be constructed outside this module, is neither `Copy` nor
/// `Clone`, and [`Kernel::create_capability`] refuses to mint it once
/// scheduling has begun — so grant creation is confined to pre-scheduler
/// construction code, and each token is spent at most once, by move.
pub struct MemoryAllocationCapability {
    minted: bool,
}

/// A created grant region's identity, permanent for the program's life.
#[derive(Clone, Copy, PartialEq, Eq, Structural, Debug)]
pub struct GrantRegion {
    index: usize,
}

impl GrantRegion {
    /// The region's identity, as contracts see it.
    pub closed spec fn id(&self) -> int {
        self.index as int
    }

    /// The region's identity, as a runtime value.
    pub fn index(&self) -> (i: usize)
        ensures
            i as int == self.id(),
    {
        self.index
    }
}

/// The kernel core as board construction sees it: whether scheduling has
/// begun, and how many grant regions exist.
pub struct Kernel {
    scheduling_started: bool,
    grants_created: usize,
}

impl Kernel {
    /// Whether any process has been admitted to the scheduler.
    pub closed spec fn started(&self) -> bool {
        self.scheduling_started
    }

    /// How many grant regions have been created.
    pub closed spec fn grant_count(&self) -> int {
        self.grants_created as int
    }

    /// A kernel at boot: construction still running, no grants yet.
    pub fn new() -> (k: Kernel)
        ensures
            !k.started(),
            k.grant_count() == 0,
    {
        Kernel { scheduling_started: false, grants_created: 0 }
    }

    /// Mints a capability token — but only while construction is still
    /// running. Once scheduling has begun no further token is minted and
    /// the call returns `None`.
    pub fn create_capability(&self) -> (r: Option<MemoryAllocationCapability>)
        ensures
            r is Some <==> !self.started(),
    {
        if self.scheduling_started {
            None
        } else {
            Some(MemoryAllocationCapability { minted: true })
        }
    }

    /// Creates a grant region, consuming the capability token that
    /// authorizes it. Each region gets a fresh identity: the region ids of
    /// two calls never collide, so per-process storage is keyed uniquely.
    pub fn create_grant(&mut self, capability: MemoryAllocationCapability) -> (g: GrantRegion)
        requires
            old(self).grant_count() < usize::MAX,
        ensures
            g.id() == old(self).grant_count(),
            final(self).grant_count() == old(self).grant_count() + 1,
            final(self).started() == old(self).started(),
    {
        let _ = capability;
        let index = self.grants_created;
        self.grants_created = self.grants_created + 1;
        GrantRegion { index }
    }

    /// Admits processes to the scheduler: construction is over, and no
    /// further capability token will ever be minted.
    pub fn start_scheduling(&mut self)
        ensures
            final(self).started(),
            final(self).grant_count() == old(self).grant_count(),
    {
        self.scheduling_started = true;
    }
}

/// Law: grant identities are fresh. A region created when `n` regions
/// exist is named `n`, so the regions created by any two distinct calls —
/// between which the count only grows — carry distinct identities.
pub proof fn lemma_grant_ids_distinct(n1: int, n2: int, g1: GrantRegion, g2: GrantRegion)
    requires
        g1.id() == n1,
        g2.id() == n2,
        n1 < n2,
    ensures
        g1 != g2,
{
}

} // verus!
