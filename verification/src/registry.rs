//! The scoped handle registry: an arena of slots that brackets a borrowed
//! host object's script-visibility to one callback invocation.
//!
//! A handle is an index and a generation. Entering a scope claims a slot and
//! hands out a handle; revoking the handle at scope exit bumps the slot's
//! generation, so a stale handle is detected by a cheap comparison instead
//! of ever reaching a dangling reference. Generations never decrease, which
//! is what makes staleness permanent.

use vstd::prelude::*;

use crate::error::BridgeError;
use crate::Handle;

verus! {

/// One arena slot.
#[derive(Clone, Copy, PartialEq, Eq, Structural, Debug)]
pub struct Slot {
    pub generation: u64,
    pub obj: usize,
    pub writable: bool,
    pub live: bool,
}

/// The arena of scoped handles.
#[derive(Debug)]
pub struct HandleRegistry {
    pub slots: Vec<Slot>,
}

/// `h` currently resolves in `reg`.
pub open spec fn resolves(reg: Seq<Slot>, h: Handle) -> bool {
    &&& h.index < reg.len()
    &&& reg[h.index as int].live
    &&& reg[h.index as int].generation == h.generation
}

/// The object a resolving handle refers to.
pub open spec fn obj_of(reg: Seq<Slot>, h: Handle) -> usize {
    reg[h.index as int].obj
}

/// `h` can never resolve again in `reg`: its slot has moved past its
/// generation.
pub open spec fn dead(reg: Seq<Slot>, h: Handle) -> bool {
    h.index < reg.len() ==> reg[h.index as int].generation > h.generation
}

/// Slots are only ever added and generations only ever grow.
pub open spec fn monotone(a: Seq<Slot>, b: Seq<Slot>) -> bool {
    &&& a.len() <= b.len()
    &&& forall|i: int| 0 <= i < a.len() ==> a[i].generation <= b[i].generation
}

/// Every live slot can still be revoked: its generation has room to grow.
pub open spec fn wf(reg: Seq<Slot>) -> bool {
    forall|i: int| 0 <= i < reg.len() && reg[i].live ==> reg[i].generation < u64::MAX
}

/// No live slot refers to `obj`.
pub open spec fn obj_free(reg: Seq<Slot>, obj: usize) -> bool {
    forall|i: int| 0 <= i < reg.len() && reg[i].live ==> reg[i].obj != obj
}

/// Monotonicity composes.
pub proof fn lemma_monotone_trans(a: Seq<Slot>, b: Seq<Slot>, c: Seq<Slot>)
    requires
        monotone(a, b),
        monotone(b, c),
    ensures
        monotone(a, c),
{
}

/// Two different live handles always occupy different slots: a slot's
/// generation admits one live handle at a time, so nested scopes can never
/// share a handle.
pub proof fn lemma_live_handles_distinct(reg: Seq<Slot>, a: Handle, b: Handle)
    requires
        resolves(reg, a),
        resolves(reg, b),
        a != b,
    ensures
        a.index != b.index,
{
}

/// Once a handle is dead, registry growth and further generation bumps can
/// never revive it: any later use yields a scope violation.
pub proof fn lemma_dead_stays_dead(a: Seq<Slot>, b: Seq<Slot>, h: Handle)
    requires
        monotone(a, b),
        dead(a, h),
        h.index < a.len() || h.index >= b.len(),
    ensures
        dead(b, h),
        !resolves(b, h),
{
}

impl View for HandleRegistry {
    type V = Seq<Slot>;

    open spec fn view(&self) -> Seq<Slot> {
        self.slots@
    }
}

impl HandleRegistry {
    /// A registry with no slots.
    pub fn new() -> (r: HandleRegistry)
        ensures
            r@ =~= Seq::<Slot>::empty(),
    {
        HandleRegistry { slots: Vec::new() }
    }

    /// How many handles are currently live.
    pub fn live_count(&self) -> (n: usize)
        ensures
            n == self@.filter(|s: Slot| s.live).len(),
    {
        let mut n: usize = 0;
        let len = self.slots.len();
        let mut i: usize = 0;
        proof {
            assert(self@.take(0int).filter(|s: Slot| s.live) =~= Seq::<Slot>::empty());
        }
        while i < len
            invariant
                len == self@.len(),
                i <= len,
                n == self@.take(i as int).filter(|s: Slot| s.live).len(),
                n <= i,
            decreases len - i,
        {
            proof {
                assert(self@.take(i + 1).drop_last() =~= self@.take(i as int));
                reveal_with_fuel(Seq::filter, 2);
            }
            if self.slots[i].live {
                n += 1;
            }
            i += 1;
        }
        proof {
            assert(self@.take(len as int) =~= self@);
        }
        n
    }

    /// Opens a scope for `obj`: claims a free slot and mints the handle
    /// that makes the object script-reachable. The object must not already
    /// be reachable: a borrowed object has at most one live handle.
    pub fn enter(&mut self, obj: usize, writable: bool) -> (h: Handle)
        requires
            wf(old(self)@),
            obj_free(old(self)@, obj),
        ensures
            wf(final(self)@),
            monotone(old(self)@, final(self)@),
            resolves(final(self)@, h),
            h.index < final(self)@.len(),
            final(self)@[h.index as int].obj == obj,
            final(self)@[h.index as int].writable == writable,
            forall|i: int|
                0 <= i < old(self)@.len() && i != h.index ==> final(self)@[i] == old(self)@[i],
            final(self)@.len() == if h.index < old(self)@.len() {
                old(self)@.len()
            } else {
                old(self)@.len() + 1
            },
            !resolves(old(self)@, h),
            h.index < old(self)@.len() ==> !old(self)@[h.index as int].live,
            forall|g: Handle| resolves(final(self)@, g) && g != h ==> resolves(old(self)@, g),
    {
        let len = self.slots.len();
        let mut i: usize = 0;
        while i < len
            invariant
                len == self@.len(),
                i <= len,
                wf(self@),
                obj_free(self@, obj),
                self@ == old(self)@,
                forall|j: int| 0 <= j < i ==> self@[j].live || self@[j].generation == u64::MAX,
            decreases len - i,
        {
            let s = self.slots[i];
            if !s.live && s.generation < u64::MAX {
                let claimed = Slot { generation: s.generation, obj, writable, live: true };
                self.slots[i] = claimed;
                let h = Handle { index: i, generation: s.generation };
                proof {
                    assert(forall|g: Handle|
                        resolves(final(self)@, g) && g != h ==> resolves(old(self)@, g));
                }
                return h;
            }
            i += 1;
        }
        let fresh = Slot { generation: 0, obj, writable, live: true };
        self.slots.push(fresh);
        Handle { index: len, generation: 0 }
    }

    /// Closes a scope: the handle's slot steps past the handle's
    /// generation, so the handle is dead from here on.
    pub fn revoke(&mut self, h: Handle)
        requires
            wf(old(self)@),
            resolves(old(self)@, h),
        ensures
            wf(final(self)@),
            monotone(old(self)@, final(self)@),
            dead(final(self)@, h),
            !resolves(final(self)@, h),
            final(self)@.len() == old(self)@.len(),
            final(self)@[h.index as int].live == false,
            final(self)@[h.index as int].generation == old(self)@[h.index as int].generation + 1,
            forall|i: int|
                0 <= i < old(self)@.len() && i != h.index ==> final(self)@[i] == old(self)@[i],
            forall|g: Handle| resolves(final(self)@, g) ==> resolves(old(self)@, g),
    {
        let s = self.slots[h.index];
        let closed = Slot { generation: s.generation + 1, obj: s.obj, writable: false, live: false };
        self.slots[h.index] = closed;
    }

    /// Resolves a handle to the object it refers to, and whether it may be
    /// mutated through. A handle whose scope has closed yields a scope
    /// violation: revocation invalidated the slot itself, not merely some
    /// wrapper.
    pub fn resolve(&self, h: Handle) -> (r: Result<(usize, bool), BridgeError>)
        ensures
            match r {
                Ok((obj, writable)) => resolves(self@, h) && obj == obj_of(self@, h) && writable
                    == self@[h.index as int].writable,
                Err(e) => !resolves(self@, h) && e == BridgeError::ScopeViolation,
            },
    {
        if h.index < self.slots.len() {
            let s = self.slots[h.index];
            if s.live && s.generation == h.generation {
                Ok((s.obj, s.writable))
            } else {
                Err(BridgeError::ScopeViolation)
            }
        } else {
            Err(BridgeError::ScopeViolation)
        }
    }
}

} // verus!
