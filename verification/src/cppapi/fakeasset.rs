//! Probing which slot of the virtual method table each asset method uses:
//! a fake asset whose table has twenty recorders is handed to the public
//! asset functions, and the recorder that gets called names the slot.

use vstd::prelude::*;
use crate::cppapi::asset::AssetVTableHooks;

verus! {

/// The public wrapper of the fake asset: the address of the fake asset.
pub struct FakeAAsset {
    pub mAsset: usize,
}

/// The fake asset: the address of its table, then padding that keeps
/// stray writes of the methods under test inside the object.
pub struct FakeAsset {
    pub vtable: usize,
    pub fakedata: [usize; 100],
}

/// The fake table: the address of the recorder in each slot.
pub struct FakeAssetVTable {
    pub slots: [usize; 20],
}

/// The slot whose recorder was called last (0xff before any).
pub struct LastCalled {
    pub slot: usize,
}

impl LastCalled {
    /// No recorder called yet.
    pub fn new() -> (r: LastCalled)
        ensures
            r.slot == 0xff,
    {
        LastCalled { slot: 0xff }
    }
}

impl FakeAsset {
    /// A zeroed fake asset whose table is at `vtable`.
    pub fn new(vtable: usize) -> (r: FakeAsset)
        ensures
            r.vtable == vtable,
            forall|i: int| 0 <= i < 100 ==> r.fakedata@[i] == 0,
    {
        FakeAsset { vtable, fakedata: [0usize; 100] }
    }
}

impl FakeAAsset {
    /// The wrapper of the fake asset at `asset`.
    pub fn new(asset: usize) -> (r: FakeAAsset)
        ensures
            r.mAsset == asset,
    {
        FakeAAsset { mAsset: asset }
    }
}

fn record_slot(last_called: &mut LastCalled, slot: usize) -> (r: usize)
    ensures
        final(last_called).slot == slot,
        r == 0,
{
    last_called.slot = slot;
    0
}

/// Records that slot 0 of the fake table was called.
pub fn call0(last_called: &mut LastCalled) -> (r: usize)
    ensures
        final(last_called).slot == 0,
        r == 0,
{
    record_slot(last_called, 0)
}

/// Records that slot 1 of the fake table was called.
pub fn call1(last_called: &mut LastCalled) -> (r: usize)
    ensures
        final(last_called).slot == 1,
        r == 0,
{
    record_slot(last_called, 1)
}

/// Records that slot 2 of the fake table was called.
pub fn call2(last_called: &mut LastCalled) -> (r: usize)
    ensures
        final(last_called).slot == 2,
        r == 0,
{
    record_slot(last_called, 2)
}

/// Records that slot 3 of the fake table was called.
pub fn call3(last_called: &mut LastCalled) -> (r: usize)
    ensures
        final(last_called).slot == 3,
        r == 0,
{
    record_slot(last_called, 3)
}

/// Records that slot 4 of the fake table was called.
pub fn call4(last_called: &mut LastCalled) -> (r: usize)
    ensures
        final(last_called).slot == 4,
        r == 0,
{
    record_slot(last_called, 4)
}

/// Records that slot 5 of the fake table was called.
pub fn call5(last_called: &mut LastCalled) -> (r: usize)
    ensures
        final(last_called).slot == 5,
        r == 0,
{
    record_slot(last_called, 5)
}

/// Records that slot 6 of the fake table was called.
pub fn call6(last_called: &mut LastCalled) -> (r: usize)
    ensures
        final(last_called).slot == 6,
        r == 0,
{
    record_slot(last_called, 6)
}

/// Records that slot 7 of the fake table was called.
pub fn call7(last_called: &mut LastCalled) -> (r: usize)
    ensures
        final(last_called).slot == 7,
        r == 0,
{
    record_slot(last_called, 7)
}

/// Records that slot 8 of the fake table was called.
pub fn call8(last_called: &mut LastCalled) -> (r: usize)
    ensures
        final(last_called).slot == 8,
        r == 0,
{
    record_slot(last_called, 8)
}

/// Records that slot 9 of the fake table was called.
pub fn call9(last_called: &mut LastCalled) -> (r: usize)
    ensures
        final(last_called).slot == 9,
        r == 0,
{
    record_slot(last_called, 9)
}

/// Records that slot 10 of the fake table was called.
pub fn call10(last_called: &mut LastCalled) -> (r: usize)
    ensures
        final(last_called).slot == 10,
        r == 0,
{
    record_slot(last_called, 10)
}

/// Records that slot 11 of the fake table was called.
pub fn call11(last_called: &mut LastCalled) -> (r: usize)
    ensures
        final(last_called).slot == 11,
        r == 0,
{
    record_slot(last_called, 11)
}

/// Records that slot 12 of the fake table was called.
pub fn call12(last_called: &mut LastCalled) -> (r: usize)
    ensures
        final(last_called).slot == 12,
        r == 0,
{
    record_slot(last_called, 12)
}

/// Records that slot 13 of the fake table was called.
pub fn call13(last_called: &mut LastCalled) -> (r: usize)
    ensures
        final(last_called).slot == 13,
        r == 0,
{
    record_slot(last_called, 13)
}

/// Records that slot 14 of the fake table was called.
pub fn call14(last_called: &mut LastCalled) -> (r: usize)
    ensures
        final(last_called).slot == 14,
        r == 0,
{
    record_slot(last_called, 14)
}

/// Records that slot 15 of the fake table was called.
pub fn call15(last_called: &mut LastCalled) -> (r: usize)
    ensures
        final(last_called).slot == 15,
        r == 0,
{
    record_slot(last_called, 15)
}

/// Records that slot 16 of the fake table was called.
pub fn call16(last_called: &mut LastCalled) -> (r: usize)
    ensures
        final(last_called).slot == 16,
        r == 0,
{
    record_slot(last_called, 16)
}

/// Records that slot 17 of the fake table was called.
pub fn call17(last_called: &mut LastCalled) -> (r: usize)
    ensures
        final(last_called).slot == 17,
        r == 0,
{
    record_slot(last_called, 17)
}

/// Records that slot 18 of the fake table was called.
pub fn call18(last_called: &mut LastCalled) -> (r: usize)
    ensures
        final(last_called).slot == 18,
        r == 0,
{
    record_slot(last_called, 18)
}

/// Records that slot 19 of the fake table was called.
pub fn call19(last_called: &mut LastCalled) -> (r: usize)
    ensures
        final(last_called).slot == 19,
        r == 0,
{
    record_slot(last_called, 19)
}

/// The asset methods whose slots are probed, in probing order.
#[derive(PartialEq, Eq, Structural, Clone, Copy, Debug)]
pub enum AssetMethod {
    GetLength,
    GetRemainingLength,
    IsAllocated,
    OpenFileDescriptor,
    Read,
    Seek,
    GetBuffer,
    Close,
}

/// The method probed in step `i`.
pub open spec fn method_at(i: int) -> AssetMethod {
    if i == 0 {
        AssetMethod::GetLength
    } else if i == 1 {
        AssetMethod::GetRemainingLength
    } else if i == 2 {
        AssetMethod::IsAllocated
    } else if i == 3 {
        AssetMethod::OpenFileDescriptor
    } else if i == 4 {
        AssetMethod::Read
    } else if i == 5 {
        AssetMethod::Seek
    } else if i == 6 {
        AssetMethod::GetBuffer
    } else {
        AssetMethod::Close
    }
}

/// The slot and hook address recorded for `m`.
pub open spec fn entry_of(h: AssetVTableHooks, m: AssetMethod) -> (usize, usize) {
    match m {
        AssetMethod::GetLength => h.getLength,
        AssetMethod::GetRemainingLength => h.getRemainingLength,
        AssetMethod::IsAllocated => h.isAllocated,
        AssetMethod::OpenFileDescriptor => h.openFileDescriptor,
        AssetMethod::Read => h.read,
        AssetMethod::Seek => h.seek,
        AssetMethod::GetBuffer => h.getBuffer,
        AssetMethod::Close => h.close,
    }
}

fn method_for_step(i: usize) -> (m: AssetMethod)
    ensures
        m == method_at(i as int),
{
    if i == 0 {
        AssetMethod::GetLength
    } else if i == 1 {
        AssetMethod::GetRemainingLength
    } else if i == 2 {
        AssetMethod::IsAllocated
    } else if i == 3 {
        AssetMethod::OpenFileDescriptor
    } else if i == 4 {
        AssetMethod::Read
    } else if i == 5 {
        AssetMethod::Seek
    } else if i == 6 {
        AssetMethod::GetBuffer
    } else {
        AssetMethod::Close
    }
}

/// `h` with the slot of `m` set to `slot`.
pub open spec fn set_slot(h: AssetVTableHooks, m: AssetMethod, slot: usize) -> AssetVTableHooks {
    match m {
        AssetMethod::GetLength => AssetVTableHooks { getLength: (slot, h.getLength.1), ..h },
        AssetMethod::GetRemainingLength => AssetVTableHooks {
            getRemainingLength: (slot, h.getRemainingLength.1),
            ..h
        },
        AssetMethod::IsAllocated => AssetVTableHooks { isAllocated: (slot, h.isAllocated.1), ..h },
        AssetMethod::OpenFileDescriptor => AssetVTableHooks {
            openFileDescriptor: (slot, h.openFileDescriptor.1),
            ..h
        },
        AssetMethod::Read => AssetVTableHooks { read: (slot, h.read.1), ..h },
        AssetMethod::Seek => AssetVTableHooks { seek: (slot, h.seek.1), ..h },
        AssetMethod::GetBuffer => AssetVTableHooks { getBuffer: (slot, h.getBuffer.1), ..h },
        AssetMethod::Close => AssetVTableHooks { close: (slot, h.close.1), ..h },
    }
}

/// The hooks after the slots `obs` were observed, one per method in
/// probing order.
pub open spec fn probe_outcome(h: AssetVTableHooks, obs: Seq<usize>) -> AssetVTableHooks
    decreases obs.len(),
{
    if obs.len() == 0 {
        h
    } else {
        set_slot(probe_outcome(h, obs.drop_last()), method_at(obs.len() - 1), obs.last())
    }
}

proof fn lemma_set_slot(h: AssetVTableHooks, m: AssetMethod, slot: usize, other: AssetMethod)
    ensures
        entry_of(set_slot(h, m, slot), m) == (slot, entry_of(h, m).1),
        other != m ==> entry_of(set_slot(h, m, slot), other) == entry_of(h, other),
{
}

/// Probing records, for each method in turn, the slot observed for it and
/// nothing else: after the observations `obs`, the first `obs.len()`
/// methods have the observed slots, the rest keep theirs, and every hook
/// address stays.
pub proof fn lemma_probe_outcome(h: AssetVTableHooks, obs: Seq<usize>)
    requires
        obs.len() <= 8,
    ensures
        forall|k: int|
            0 <= k < obs.len() ==> entry_of(probe_outcome(h, obs), #[trigger] method_at(k)) == (
                obs[k],
                entry_of(h, method_at(k)).1,
            ),
        forall|k: int|
            obs.len() <= k < 8 ==> entry_of(probe_outcome(h, obs), #[trigger] method_at(k))
                == entry_of(h, method_at(k)),
    decreases obs.len(),
{
    if obs.len() > 0 {
        let prev = obs.drop_last();
        lemma_probe_outcome(h, prev);
        let n = obs.len() - 1;
        assert forall|k: int| 0 <= k < obs.len() implies entry_of(
            probe_outcome(h, obs),
            #[trigger] method_at(k),
        ) == (obs[k], entry_of(h, method_at(k)).1) by {
            lemma_set_slot(probe_outcome(h, prev), method_at(n), obs.last(), method_at(k));
            if k < n {
                assert(prev[k] == obs[k]);
            }
        }
        assert forall|k: int| obs.len() <= k < 8 implies entry_of(
            probe_outcome(h, obs),
            #[trigger] method_at(k),
        ) == entry_of(h, method_at(k)) by {
            lemma_set_slot(probe_outcome(h, prev), method_at(n), obs.last(), method_at(k));
        }
    }
}

/// A completed probe has, for every method, the slot observed in its step
/// and the hook address it started with.
pub proof fn lemma_completed_probe(p: SlotProbe)
    requires
        p.wf(),
        p.done == 8,
    ensures
        forall|k: int|
            0 <= k < 8 ==> entry_of(p.hooks, #[trigger] method_at(k)) == (
                p.observed@[k],
                entry_of(p.initial@, method_at(k)).1,
            ),
{
    lemma_probe_outcome(p.initial@, p.observed@);
}

/// A probe of the slots in progress: the hooks with the slots recorded so
/// far, how many methods have been probed, and (for the proofs) the hooks
/// it started from and the slots observed so far.
pub struct SlotProbe {
    pub hooks: AssetVTableHooks,
    pub done: usize,
    pub initial: Ghost<AssetVTableHooks>,
    pub observed: Ghost<Seq<usize>>,
}

impl SlotProbe {
    /// The probe holds the start hooks with the observations so far applied.
    pub open spec fn wf(&self) -> bool {
        &&& self.done == self.observed@.len()
        &&& self.done <= 8
        &&& self.hooks == probe_outcome(self.initial@, self.observed@)
    }
}

impl SlotProbe {
    /// Starts a probe; the first method to call on the fake asset is
    /// returned.
    pub fn start(hooks: AssetVTableHooks) -> (r: (SlotProbe, AssetMethod))
        ensures
            r.0.wf(),
            r.0.initial@ == hooks,
            r.0.hooks == hooks,
            r.0.done == 0,
            r.1 == method_at(0),
    {
        (
            SlotProbe {
                hooks,
                done: 0,
                initial: Ghost(hooks),
                observed: Ghost(Seq::<usize>::empty()),
            },
            AssetMethod::GetLength,
        )
    }

    /// The method last called on the fake asset reached the recorder of
    /// `observed`: that becomes its slot. Returns the next method to call,
    /// or `None` when every method is probed.
    pub fn record(&mut self, observed: usize) -> (next: Option<AssetMethod>)
        requires
            old(self).wf(),
            old(self).done < 8,
        ensures
            final(self).wf(),
            final(self).initial == old(self).initial,
            final(self).observed@ == old(self).observed@.push(observed),
            final(self).hooks == set_slot(old(self).hooks, method_at(old(self).done as int), observed),
            final(self).done == old(self).done + 1,
            entry_of(final(self).hooks, method_at(old(self).done as int)) == (
                observed,
                entry_of(old(self).hooks, method_at(old(self).done as int)).1,
            ),
            forall|k: int|
                0 <= k < 8 && k != old(self).done ==> entry_of(final(self).hooks, #[trigger] method_at(k))
                    == entry_of(old(self).hooks, method_at(k)),
            next == (if final(self).done < 8 {
                Some(method_at(final(self).done as int))
            } else {
                None
            }),
    {
        let m = method_for_step(self.done);
        match m {
            AssetMethod::GetLength => self.hooks.getLength.0 = observed,
            AssetMethod::GetRemainingLength => self.hooks.getRemainingLength.0 = observed,
            AssetMethod::IsAllocated => self.hooks.isAllocated.0 = observed,
            AssetMethod::OpenFileDescriptor => self.hooks.openFileDescriptor.0 = observed,
            AssetMethod::Read => self.hooks.read.0 = observed,
            AssetMethod::Seek => self.hooks.seek.0 = observed,
            AssetMethod::GetBuffer => self.hooks.getBuffer.0 = observed,
            AssetMethod::Close => self.hooks.close.0 = observed,
        }
        self.done = self.done + 1;
        proof {
            let obs = self.observed@.push(observed);
            assert(obs.drop_last() =~= self.observed@);
            self.observed = Ghost(obs);
        }
        if self.done < 8 {
            Some(method_for_step(self.done))
        } else {
            None
        }
    }
}

} // verus!
