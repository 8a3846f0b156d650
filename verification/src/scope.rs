//! The per-thread capability slot, the scope runner, and the free storage
//! accessors that resolve the active capability through the slot.

use vstd::prelude::*;
use vstd::slice::SliceAdditionalExecFns;
use vstd::slice::slice_to_vec;
use crate::externalities::Externalities;
use crate::externalities::stored_or_empty;

verus! {

/// A single-slot holder for "the currently active host capability".
///
/// The slot behaves as a replaceable cell, not a stack: installing a new
/// capability while one is active hides the outer one until the inner scope
/// exits and restoration puts it back.  Each thread of execution owns its own
/// slot value; a slot is never shared across threads.
pub struct ScopedContextSlot<E> {
    active: Option<E>,
}

impl<E> View for ScopedContextSlot<E> {
    type V = Option<E>;

    closed spec fn view(&self) -> Option<E> {
        self.active
    }
}

impl<E> ScopedContextSlot<E> {
    /// A slot with no capability installed.
    pub fn empty() -> (r: Self)
        ensures
            r@ is None,
    {
        ScopedContextSlot { active: None }
    }

    /// Swap the previous content out and `ext` in; the caller is responsible
    /// for handing the returned previous content back to [`Self::restore`].
    pub fn install(&mut self, ext: E) -> (prev: Option<E>)
        ensures
            final(self)@ == Some(ext),
            prev == old(self)@,
    {
        let prev = self.active.take();
        self.active = Some(ext);
        prev
    }

    /// Put `prev` (the content that [`Self::install`] swapped out) back in.
    pub fn restore(&mut self, prev: Option<E>)
        ensures
            final(self)@ == prev,
    {
        self.active = prev;
    }

    /// Remove and return the installed capability, leaving the slot empty.
    pub fn uninstall(&mut self) -> (prev: Option<E>)
        ensures
            final(self)@ is None,
            prev == old(self)@,
    {
        self.active.take()
    }

    /// The active capability, or `None` if the slot is empty.
    pub fn current(&self) -> (r: Option<&E>)
        ensures
            match r {
                Some(e) => self@ == Some(*e),
                None => self@ is None,
            },
    {
        self.active.as_ref()
    }

    /// Whether a capability is installed.
    pub fn is_installed(&self) -> (b: bool)
        ensures
            b == self.is_active(),
    {
        self.active.is_some()
    }

    /// Whether a capability is installed.
    pub open spec fn is_active(&self) -> bool {
        self@ is Some
    }
}

impl<E: Externalities> ScopedContextSlot<E> {
    /// The key/value store reachable through this slot: the active
    /// capability's store, or the empty map when the slot is empty.
    pub open spec fn model(&self) -> Map<Seq<u8>, Seq<u8>> {
        match self@ {
            Some(e) => e.storage_model(),
            None => Map::<Seq<u8>, Seq<u8>>::empty(),
        }
    }

    /// The chain identifier reachable through this slot; 0 when the slot is
    /// empty.
    pub open spec fn id(&self) -> u64 {
        match self@ {
            Some(e) => e.id_model(),
            None => 0u64,
        }
    }

    /// Whether every read through this slot succeeds: vacuously true when the
    /// slot is empty, otherwise decided by the active capability.
    pub open spec fn reads_succeed(&self) -> bool {
        match self@ {
            Some(e) => e.reads_ok(),
            None => true,
        }
    }
}

/// Install `ext` for the dynamic extent of `f`, then restore the slot's
/// previous content on exit.
///
/// `f` receives a slot holding exactly `ext`; the inner slot, with whatever
/// `f` left in it, is handed back as the second component of the result.
/// The caller's slot is always returned to its pre-call content, whatever
/// `f` did with the inner one.
pub fn with_externalities<E, R, F: FnOnce(ScopedContextSlot<E>) -> (R, ScopedContextSlot<E>)>(
    slot: &mut ScopedContextSlot<E>,
    ext: E,
    f: F,
) -> (r: (R, ScopedContextSlot<E>))
    requires
        forall|s: ScopedContextSlot<E>| s@ == Some(ext) ==> #[trigger] call_requires(f, (s,)),
    ensures
        final(slot)@ == old(slot)@,
        exists|s_in: ScopedContextSlot<E>|
            s_in@ == Some(ext) && #[trigger] call_ensures(f, (s_in,), r),
{
    let prev = slot.uninstall();
    let inner = ScopedContextSlot { active: Some(ext) };
    let ghost g_in = inner;
    let pair = f(inner);
    slot.restore(prev);
    proof {
        assert(g_in@ == Some(ext));
        assert(call_ensures(f, (g_in,), pair));
    }
    pair
}

/// Read the stored bytes for `key` through the active capability.
///
/// With no capability installed, or when the capability's read fails, the
/// result degrades to empty bytes; an absent key also reads as empty bytes.
pub fn storage<E: Externalities>(slot: &ScopedContextSlot<E>, key: &[u8]) -> (r: Vec<u8>)
    ensures
        r@ == stored_or_empty(slot.model(), key@) || r@ == Seq::<u8>::empty(),
        !slot.is_active() ==> r@ == Seq::<u8>::empty(),
        slot.reads_succeed() ==> r@ == stored_or_empty(slot.model(), key@),
{
    match &slot.active {
        None => Vec::new(),
        Some(e) => match e.storage(key) {
            Ok(v) => v,
            Err(_) => Vec::new(),
        },
    }
}

/// How a buffer looks after `read_storage` copied `stored` into it: the
/// returned count is the full stored length, the first `min(stored, buffer)`
/// bytes hold the stored prefix, and the rest of the buffer is untouched.
pub open spec fn read_into(stored: Seq<u8>, old_buf: Seq<u8>, new_buf: Seq<u8>, n: int) -> bool {
    let w = if stored.len() <= old_buf.len() {
        stored.len() as int
    } else {
        old_buf.len() as int
    };
    &&& new_buf.len() == old_buf.len()
    &&& n == stored.len()
    &&& forall|i: int| 0 <= i < w ==> new_buf[i] == stored[i]
    &&& forall|i: int| w <= i < old_buf.len() ==> new_buf[i] == old_buf[i]
}

/// Copy the stored bytes for `key` into `value_out` (truncated to the buffer
/// length) and return the full stored length, so that callers can detect
/// truncation.  Returns 0, with the buffer untouched, when no capability is
/// installed or the capability's read fails.
pub fn read_storage<E: Externalities>(
    slot: &ScopedContextSlot<E>,
    key: &[u8],
    value_out: &mut [u8],
) -> (n: usize)
    ensures
        read_into(stored_or_empty(slot.model(), key@), old(value_out)@, final(value_out)@, n as int)
            || (n == 0 && final(value_out)@ == old(value_out)@),
        !slot.is_active() ==> n == 0 && final(value_out)@ == old(value_out)@,
        slot.is_active() && slot.reads_succeed() ==> read_into(
            stored_or_empty(slot.model(), key@),
            old(value_out)@,
            final(value_out)@,
            n as int,
        ),
{
    match &slot.active {
        None => 0,
        Some(e) => match e.storage(key) {
            Err(_) => 0,
            Ok(value) => {
                let written: usize = if value.len() <= value_out.len() {
                    value.len()
                } else {
                    value_out.len()
                };
                let mut i: usize = 0;
                while i < written
                    invariant
                        value_out@.len() == old(value_out)@.len(),
                        written <= value@.len(),
                        written <= value_out@.len(),
                        0 <= i <= written,
                        forall|j: int| 0 <= j < i ==> value_out@[j] == value@[j],
                        forall|j: int| i <= j < value_out@.len()
                            ==> value_out@[j] == old(value_out)@[j],
                    decreases written - i,
                {
                    value_out[i] = value[i];
                    i += 1;
                }
                value.len()
            }
        },
    }
}

/// Write `value` under `key` through the active capability.
///
/// With no capability installed this is a silent no-op: storage access
/// outside an active scope is a programming error, but it must not crash
/// sandboxed code.
pub fn set_storage<E: Externalities>(slot: &mut ScopedContextSlot<E>, key: &[u8], value: &[u8])
    ensures
        final(slot).is_active() == old(slot).is_active(),
        !old(slot).is_active() ==> final(slot)@ == old(slot)@,
        old(slot).is_active() ==> final(slot).model() == old(slot).model().insert(key@, value@),
        final(slot).id() == old(slot).id(),
        final(slot).reads_succeed() == old(slot).reads_succeed(),
{
    match &mut slot.active {
        None => {},
        Some(e) => e.set_storage(slice_to_vec(key), slice_to_vec(value)),
    }
}

/// The chain identifier reported by the active capability, or 0 when no
/// capability is installed.
pub fn chain_id<E: Externalities>(slot: &ScopedContextSlot<E>) -> (r: u64)
    ensures
        r == slot.id(),
{
    match &slot.active {
        None => 0,
        Some(e) => e.chain_id(),
    }
}

} // verus!
