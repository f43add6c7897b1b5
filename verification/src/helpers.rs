//! The ownership discipline of native handles.
//!
//! A native object is known here by its address alone. Its reference count
//! lives in the native subsystem; what this layer can and does keep is an
//! account of the increments that its own live wrappers hold:
//! [`RefCounts`]. Every wrapper that comes to life adds one entry for its
//! address, every wrapper that ends takes exactly one away.

use vstd::prelude::*;
use vstd::multiset::Multiset;
use crate::error::{status_succeeded, succeeded, Error};

verus! {

broadcast use vstd::seq_lib::group_to_multiset_ensures;

/// An owning pointer to a native object: a non-null address that stands for
/// one increment of the object's reference count.
#[derive(Debug, PartialEq, Eq, Structural)]
pub struct ComPtr {
    addr: usize,
}

impl ComPtr {
    #[verifier::type_invariant]
    spec fn non_null(&self) -> bool {
        self.addr != 0
    }

    /// The address of the native object.
    pub closed spec fn addr(&self) -> usize {
        self.addr
    }

    /// Wraps an address whose increment the caller already holds. Nothing is
    /// incremented here.
    pub fn from_raw(raw: usize) -> (ptr: ComPtr)
        requires
            raw != 0,
        ensures
            ptr.addr() == raw,
    {
        ComPtr { addr: raw }
    }

    /// The address, with the increment staying where it is.
    pub fn as_raw(&self) -> (raw: usize)
        ensures
            raw == self.addr(),
            raw != 0,
    {
        proof {
            use_type_invariant(self);
        }
        self.addr
    }

    /// The address, with the increment going to the caller.
    pub fn into_raw(self) -> (raw: usize)
        ensures
            raw == self.addr(),
            raw != 0,
    {
        proof {
            use_type_invariant(&self);
        }
        self.addr
    }
}

/// What every handle wrapper offers: construction from a raw address, a
/// borrow of that address, and consumption back into it. None of the three
/// changes a reference count.
pub trait ComWrapper: Sized {
    /// The address of the wrapped native object.
    spec fn raw(&self) -> usize;

    /// The address, without any change of the reference count.
    fn get_raw(&self) -> (raw: usize)
        ensures
            raw == self.raw(),
            raw != 0,
    ;

    /// Consumes the wrapper; the increment it held now belongs to the caller.
    fn into_raw(self) -> (raw: usize)
        ensures
            raw == self.raw(),
            raw != 0,
    ;

    /// Takes over an increment that the caller holds on `raw`.
    fn from_raw(raw: usize) -> (wrapper: Self)
        requires
            raw != 0,
        ensures
            wrapper.raw() == raw,
    ;
}

/// The increments of native reference counts that live wrappers hold: one
/// entry per live wrapper, under the address it wraps.
pub struct RefCounts {
    live: Vec<usize>,
}

impl View for RefCounts {
    type V = Multiset<usize>;

    closed spec fn view(&self) -> Multiset<usize> {
        self.live@.to_multiset()
    }
}

impl RefCounts {
    /// An account that holds nothing.
    pub fn new() -> (counts: RefCounts)
        ensures
            counts@ == Multiset::<usize>::empty(),
    {
        let counts = RefCounts { live: Vec::new() };
        assert(counts.live@.to_multiset() =~= Multiset::<usize>::empty()) by {
            assert(counts.live@.to_multiset().len() == 0);
        }
        counts
    }

    /// Whether some live wrapper holds an increment on `raw`.
    pub fn is_held(&self, raw: usize) -> (held: bool)
        ensures
            held == (self@.count(raw) > 0),
    {
        let mut i: usize = 0;
        while i < self.live.len()
            invariant
                i <= self.live.len(),
                forall|j: int| 0 <= j < i ==> self.live@[j] != raw,
            decreases self.live.len() - i,
        {
            if self.live[i] == raw {
                assert(self.live@.contains(raw));
                return true;
            }
            i += 1;
        }
        assert(!self.live@.contains(raw));
        false
    }

    /// How many increments live wrappers hold on `raw`.
    pub fn count(&self, raw: usize) -> (n: usize)
        ensures
            n == self@.count(raw),
    {
        let mut n: usize = 0;
        let mut i: usize = 0;
        assert(self.live@.take(0).to_multiset().count(raw) == 0) by {
            assert(self.live@.take(0).to_multiset().len() == 0);
        }
        while i < self.live.len()
            invariant
                i <= self.live.len(),
                n <= i,
                n == self.live@.take(i as int).to_multiset().count(raw),
            decreases self.live.len() - i,
        {
            assert(self.live@.take(i as int + 1) =~= self.live@.take(i as int).push(
                self.live@[i as int],
            ));
            if self.live[i] == raw {
                n += 1;
            }
            i += 1;
        }
        assert(self.live@.take(i as int) =~= self.live@);
        n
    }

    /// Records one more increment on `raw`.
    pub fn acquire(&mut self, raw: usize)
        ensures
            final(self)@ == old(self)@.insert(raw),
    {
        self.live.push(raw);
    }

    /// Takes one increment on `raw` out of the account, if one is held, and
    /// says whether it did. Where none is held the account stays as it is:
    /// that release would have been one too many.
    pub fn release(&mut self, raw: usize) -> (released: bool)
        ensures
            released == (old(self)@.count(raw) > 0),
            final(self)@ == old(self)@.remove(raw),
            !released ==> final(self)@ == old(self)@,
    {
        let mut i: usize = 0;
        while i < self.live.len()
            invariant
                i <= self.live.len(),
                *self == *old(self),
                forall|j: int| 0 <= j < i ==> self.live@[j] != raw,
            decreases self.live.len() - i,
        {
            if self.live[i] == raw {
                assert(self.live@.contains(raw));
                self.live.remove(i);
                return true;
            }
            i += 1;
        }
        assert(!self.live@.contains(raw));
        assert(self@.remove(raw) =~= self@);
        false
    }
}

/// The native interface that a wrapper type stands for: the capability that
/// a cast asks the native object about.
#[derive(Copy, Clone, Debug, PartialEq, Eq, Hash, Structural)]
pub enum Interface {
    /// The device.
    Device,
    /// The device context.
    DeviceContext,
    /// What a device created and keeps bound to itself.
    DeviceChild,
    /// The generic resource.
    Resource,
    /// The 2D texture.
    Texture2D,
    /// The display adapter of the companion subsystem.
    DxgiAdapter,
    /// The device as the companion subsystem sees it.
    DxgiDevice,
    /// The presentable surface of the companion subsystem.
    DxgiSurface,
}

/// The question of a capability cast: does the object at `object` offer
/// `target`?
#[derive(Copy, Clone, Debug, PartialEq, Eq, Structural)]
pub struct CastQuery {
    pub object: usize,
    pub target: Interface,
}

/// The native answer to a [`CastQuery`]: a status code and, where it reports
/// success, the address under which the object offers the capability. The
/// native side has then already incremented the reference count.
#[derive(Copy, Clone, Debug, PartialEq, Eq, Structural)]
pub struct CastReply {
    pub status: i32,
    pub object: usize,
}

impl CastReply {
    /// A reply that reports success names an object.
    pub open spec fn well_formed(self) -> bool {
        status_succeeded(self.status) ==> self.object != 0
    }
}

/// Wraps `raw` and records the increment that the new wrapper holds. The
/// native count is not touched: the increment existed before.
pub fn adopt<W: ComWrapper>(raw: usize, counts: &mut RefCounts) -> (wrapper: W)
    requires
        raw != 0,
    ensures
        wrapper.raw() == raw,
        final(counts)@ == old(counts)@.insert(raw),
{
    counts.acquire(raw);
    W::from_raw(raw)
}

/// Consumes the wrapper and hands its increment to the caller: the entry
/// leaves the account, and no release is due.
pub fn surrender<W: ComWrapper>(wrapper: W, counts: &mut RefCounts) -> (raw: usize)
    ensures
        raw == wrapper.raw(),
        raw != 0,
        final(counts)@ == old(counts)@.remove(raw),
{
    let raw = wrapper.into_raw();
    counts.release(raw);
    raw
}

/// A second wrapper of the same native object, holding an increment of its
/// own. The wrapper it was made from is not touched.
pub fn clone_wrapper<W: ComWrapper>(wrapper: &W, counts: &mut RefCounts) -> (copy: W)
    ensures
        copy.raw() == wrapper.raw(),
        final(counts)@ == old(counts)@.insert(wrapper.raw()),
{
    let raw = wrapper.get_raw();
    counts.acquire(raw);
    W::from_raw(raw)
}

/// Ends a wrapper: its one increment is given back. The result says whether
/// the account held that increment; where it did not, nothing changes.
pub fn drop_wrapper<W: ComWrapper>(wrapper: W, counts: &mut RefCounts) -> (released: bool)
    ensures
        released == (old(counts)@.count(wrapper.raw()) > 0),
        final(counts)@ == old(counts)@.remove(wrapper.raw()),
{
    let raw = wrapper.into_raw();
    counts.release(raw)
}

/// What a capability cast returns for a given native answer: a new wrapper
/// of the reported address with an increment of its own, or the status as a
/// device-layer failure with the account as it was.
pub fn finish_cast<U: ComWrapper>(reply: CastReply, counts: &mut RefCounts) -> (r: Result<U, Error>)
    requires
        reply.well_formed(),
    ensures
        match r {
            Ok(view) => status_succeeded(reply.status) && view.raw() == reply.object
                && final(counts)@ == old(counts)@.insert(reply.object),
            Err(e) => !status_succeeded(reply.status) && e == Error::D3D11(reply.status)
                && final(counts)@ == old(counts)@,
        },
{
    if succeeded(reply.status) {
        Ok(adopt(reply.object, counts))
    } else {
        Err(Error::D3D11(reply.status))
    }
}

/// The checked cast of a wrapper to another capability. `probe` asks the
/// native object, once, whether it offers `target`; the cast never reads an
/// address as another type on its own account.
pub fn cast<W: ComWrapper, U: ComWrapper, F: FnOnce(CastQuery) -> CastReply>(
    wrapper: &W,
    target: Interface,
    counts: &mut RefCounts,
    probe: F,
) -> (r: Result<U, Error>)
    requires
        probe.requires((CastQuery { object: wrapper.raw(), target },)),
        forall|reply: CastReply|
            probe.ensures((CastQuery { object: wrapper.raw(), target },), reply)
                ==> reply.well_formed(),
    ensures
        exists|reply: CastReply|
            {
                &&& #[trigger] probe.ensures((CastQuery { object: wrapper.raw(), target },), reply)
                &&& match r {
                    Ok(view) => status_succeeded(reply.status) && view.raw() == reply.object
                        && final(counts)@ == old(counts)@.insert(reply.object),
                    Err(e) => !status_succeeded(reply.status) && e == Error::D3D11(reply.status)
                        && final(counts)@ == old(counts)@,
                }
            },
{
    let query = CastQuery { object: wrapper.get_raw(), target };
    let reply = probe(query);
    finish_cast(reply, counts)
}

/// Cloning a wrapper and dropping the clone leaves the account as it was:
/// the first wrapper still holds its increment, on the address it had.
pub proof fn lemma_clone_then_drop_restores(counts: Multiset<usize>, raw: usize)
    requires
        counts.count(raw) >= 1,
    ensures
        counts.insert(raw).remove(raw) == counts,
        counts.insert(raw).count(raw) == counts.count(raw) + 1,
        counts.insert(raw).remove(raw).count(raw) >= 1,
{
    assert(counts.insert(raw).remove(raw) =~= counts);
}

/// A cast to another capability and a cast back, followed by the end of both
/// temporary wrappers, leaves the account as it was, whatever addresses the
/// two casts reported.
pub proof fn lemma_cast_round_trip_balances(
    counts: Multiset<usize>,
    raw: usize,
    there: usize,
    back: usize,
)
    requires
        counts.count(raw) >= 1,
    ensures
        counts.insert(there).insert(back).remove(back).remove(there) == counts,
        counts.insert(there).insert(back).remove(there).remove(back) == counts,
        counts.insert(there).insert(back).remove(back).remove(there).count(raw) >= 1,
{
    assert(counts.insert(there).insert(back).remove(back).remove(there) =~= counts);
    assert(counts.insert(there).insert(back).remove(there).remove(back) =~= counts);
}

/// A wrapper consumed into its raw address and wrapped again holds the same
/// address, and the account is as it was.
pub proof fn lemma_surrender_then_adopt_restores(counts: Multiset<usize>, raw: usize)
    requires
        counts.count(raw) >= 1,
    ensures
        counts.remove(raw).insert(raw) == counts,
{
    assert(counts.remove(raw).insert(raw) =~= counts);
}

} // verus!
