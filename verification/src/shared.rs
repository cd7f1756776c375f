//! Shared tuners: a bank that stores them, handles that name them, and the
//! access discipline that keeps a mutation exclusive.
//!
//! A holder keeps a [`TunerHandle`], never the tuner. Before it touches the
//! tuner it asks the bank for read or for write access. Any number of read
//! accesses may be out at once; a write access is out alone. A request that
//! cannot be granted fails at once with [`AccessConflict`] and changes
//! nothing. A bank never drops a slot, so a handle it gave out stays good for
//! as long as the bank lives.
//!
//! A bank has a number, and each handle carries the number of the bank that
//! gave it out beside the number of its slot. A bank takes a handle for its
//! own only if both fit, so handles of banks with different numbers are
//! never mistaken for one another.

use vstd::prelude::*;
use crate::notice::Notice;
use crate::tuner::{Tuner, TunerView};

verus! {

/// The error of a request for access that another access stands against.
#[derive(Clone, Copy, Debug, PartialEq, Eq, Structural)]
pub struct AccessConflict;

/// The name of one tuner in a [`TunerBank`]: the number of the bank and the
/// number of the slot in it. Copies of a handle name the same tuner.
#[derive(Clone, Copy, Debug, PartialEq, Eq, Structural)]
pub struct TunerHandle {
    bank: u64,
    slot: usize,
}

impl TunerHandle {
    /// The number of the bank that gave the handle out.
    pub closed spec fn bank_id(self) -> u64 {
        self.bank
    }

    /// The number of the slot that the handle names.
    pub closed spec fn index(self) -> int {
        self.slot as int
    }

    /// Handles are equal exactly when they name the same slot of the same
    /// bank.
    pub proof fn lemma_index_injective(self, other: TunerHandle)
        ensures
            (self.bank_id() == other.bank_id() && self.index() == other.index()) <==> (self
                == other),
    {
    }

    /// The number of the bank that gave the handle out.
    pub fn bank(&self) -> (bank: u64)
        ensures
            bank == self.bank_id(),
    {
        self.bank
    }

    /// The number of the slot that the handle names.
    pub fn slot(&self) -> (slot: usize)
        ensures
            slot == self.index(),
    {
        self.slot
    }
}

/// One slot of a bank: a tuner and the accesses that are out on it.
struct Slot {
    tuner: Tuner,
    readers: usize,
    writing: bool,
}

/// The state of one slot.
pub struct SlotView {
    pub tuner: TunerView,
    /// How many read accesses are out.
    pub readers: nat,
    /// Whether the write access is out.
    pub writing: bool,
}

impl SlotView {
    /// A write access is out alone.
    pub open spec fn wf(self) -> bool {
        self.writing ==> self.readers == 0
    }

    /// No access is out.
    pub open spec fn free(self) -> bool {
        !self.writing && self.readers == 0
    }

    /// A request for read access would be granted.
    pub open spec fn can_read(self) -> bool {
        !self.writing
    }

    /// A request for write access would be granted.
    pub open spec fn can_write(self) -> bool {
        self.free()
    }

    /// This slot with one read access more.
    pub open spec fn with_reader(self) -> SlotView {
        SlotView { readers: self.readers + 1, ..self }
    }

    /// This slot with one read access fewer.
    pub open spec fn without_reader(self) -> SlotView {
        SlotView { readers: (self.readers - 1) as nat, ..self }
    }

    /// This slot with the write access out.
    pub open spec fn with_writer(self) -> SlotView {
        SlotView { writing: true, ..self }
    }

    /// This slot with the write access back.
    pub open spec fn without_writer(self) -> SlotView {
        SlotView { writing: false, ..self }
    }

    /// This slot holding another tuner state, the accesses as they are.
    pub open spec fn with_tuner(self, tuner: TunerView) -> SlotView {
        SlotView { tuner, ..self }
    }
}

impl View for Slot {
    type V = SlotView;

    closed spec fn view(&self) -> SlotView {
        SlotView { tuner: self.tuner@, readers: self.readers as nat, writing: self.writing }
    }
}

/// A store of shared tuners.
pub struct TunerBank {
    id: u64,
    slots: Vec<Slot>,
}

impl View for TunerBank {
    type V = Seq<SlotView>;

    closed spec fn view(&self) -> Seq<SlotView> {
        self.slots@.map_values(|s: Slot| s@)
    }
}

/// In every slot a write access is out alone.
pub open spec fn all_wf(slots: Seq<SlotView>) -> bool {
    forall|i: int| 0 <= i < slots.len() ==> (#[trigger] slots[i]).wf()
}

/// The slots after read access was taken on slot `at`.
pub open spec fn read_taken(slots: Seq<SlotView>, at: int) -> Seq<SlotView>
    recommends
        0 <= at < slots.len(),
{
    slots.update(at, slots[at].with_reader())
}

/// The slots after one read access on slot `at` was given back.
pub open spec fn read_given_back(slots: Seq<SlotView>, at: int) -> Seq<SlotView>
    recommends
        0 <= at < slots.len(),
{
    slots.update(at, slots[at].without_reader())
}

/// The slots after write access was taken on slot `at`.
pub open spec fn write_taken(slots: Seq<SlotView>, at: int) -> Seq<SlotView>
    recommends
        0 <= at < slots.len(),
{
    slots.update(at, slots[at].with_writer())
}

/// The slots after the write access on slot `at` was given back.
pub open spec fn write_given_back(slots: Seq<SlotView>, at: int) -> Seq<SlotView>
    recommends
        0 <= at < slots.len(),
{
    slots.update(at, slots[at].without_writer())
}

/// The slots after the tuner in slot `at` was switched on.
pub open spec fn switched_on_at(slots: Seq<SlotView>, at: int) -> Seq<SlotView>
    recommends
        0 <= at < slots.len(),
{
    slots.update(at, slots[at].with_tuner(slots[at].tuner.switched_on()))
}

/// The slots after the tuner in slot `at` was switched off.
pub open spec fn switched_off_at(slots: Seq<SlotView>, at: int) -> Seq<SlotView>
    recommends
        0 <= at < slots.len(),
{
    slots.update(at, slots[at].with_tuner(slots[at].tuner.switched_off()))
}

/// The slots after the tuner in slot `at` was tuned to the frequency of
/// these bits, the accesses on it as they were.
pub open spec fn tuned_at(slots: Seq<SlotView>, at: int, bits: u64) -> Seq<SlotView>
    recommends
        0 <= at < slots.len(),
{
    slots.update(at, slots[at].with_tuner(slots[at].tuner.tuned(bits)))
}

/// A change to one slot, which is well formed afterwards, keeps the whole
/// bank well formed.
proof fn lemma_wf_kept(before: Seq<SlotView>, at: int, slot: SlotView)
    requires
        all_wf(before),
        0 <= at < before.len(),
        slot.wf(),
    ensures
        all_wf(before.update(at, slot)),
{
    let after = before.update(at, slot);
    assert forall|i: int| 0 <= i < after.len() implies (#[trigger] after[i]).wf() by {
        if i != at {
            assert(before[i].wf());
        }
    }
}

impl TunerBank {
    /// In every slot a write access is out alone.
    pub open spec fn wf(&self) -> bool {
        all_wf(self@)
    }

    /// The number of the bank, fixed when it is made.
    pub closed spec fn id(&self) -> u64 {
        self.id
    }

    /// The handle is one of this bank: it carries the bank's number, and the
    /// bank has the slot that it names.
    pub open spec fn holds(&self, handle: TunerHandle) -> bool {
        handle.bank_id() == self.id() && 0 <= handle.index() < self@.len()
    }

    /// The slot that the handle names.
    pub open spec fn slot(&self, handle: TunerHandle) -> SlotView
        recommends
            self.holds(handle),
    {
        self@[handle.index()]
    }

    /// An empty bank of this number. Whoever makes several banks keeps them
    /// apart by giving them different numbers.
    pub fn new(id: u64) -> (bank: TunerBank)
        ensures
            bank.id() == id,
            bank@ == Seq::<SlotView>::empty(),
            bank.wf(),
    {
        let bank = TunerBank { id, slots: Vec::new() };
        assert(bank@ =~= Seq::<SlotView>::empty());
        bank
    }

    /// Moves a tuner into a new slot of the bank, with no access out on it,
    /// and gives out the first handle to it. The slots that were there stay
    /// as they are.
    pub fn insert(&mut self, tuner: Tuner) -> (handle: TunerHandle)
        requires
            old(self).wf(),
        ensures
            final(self).wf(),
            final(self).id() == old(self).id(),
            handle.bank_id() == old(self).id(),
            handle.index() == old(self)@.len(),
            final(self)@ == old(self)@.push(
                SlotView { tuner: tuner@, readers: 0, writing: false },
            ),
    {
        let slot = self.slots.len();
        self.slots.push(Slot { tuner, readers: 0, writing: false });
        assert(self@ =~= old(self)@.push(SlotView { tuner: tuner@, readers: 0, writing: false }));
        TunerHandle { bank: self.id, slot }
    }

    /// The number of the bank.
    pub fn number(&self) -> (id: u64)
        ensures
            id == self.id(),
    {
        self.id
    }

    /// Whether the handle is one of this bank.
    pub fn contains(&self, handle: TunerHandle) -> (held: bool)
        ensures
            held == self.holds(handle),
    {
        handle.bank == self.id && handle.slot < self.slots.len()
    }

    /// The tuner that the handle names, as it is now.
    pub fn tuner(&self, handle: TunerHandle) -> (tuner: &Tuner)
        requires
            self.holds(handle),
        ensures
            tuner@ == self.slot(handle).tuner,
    {
        &self.slots[handle.slot].tuner
    }

    /// How many read accesses are out on the tuner that the handle names.
    pub fn readers(&self, handle: TunerHandle) -> (readers: usize)
        requires
            self.holds(handle),
        ensures
            readers == self.slot(handle).readers,
    {
        self.slots[handle.slot].readers
    }

    /// Whether the write access is out on the tuner that the handle names.
    pub fn writing(&self, handle: TunerHandle) -> (writing: bool)
        requires
            self.holds(handle),
        ensures
            writing == self.slot(handle).writing,
    {
        self.slots[handle.slot].writing
    }

    /// Asks for read access. It is granted exactly when the write access is
    /// not out; a refusal changes nothing.
    pub fn acquire_read(&mut self, handle: TunerHandle) -> (granted: Result<(), AccessConflict>)
        requires
            old(self).wf(),
            old(self).holds(handle),
            old(self).slot(handle).readers < usize::MAX,
        ensures
            final(self).wf(),
            final(self).id() == old(self).id(),
            granted is Ok <==> old(self).slot(handle).can_read(),
            granted is Ok ==> final(self)@ == read_taken(old(self)@, handle.index()),
            granted is Err ==> final(self)@ == old(self)@,
    {
        if self.slots[handle.slot].writing {
            return Err(AccessConflict);
        }
        let slot = &mut self.slots[handle.slot];
        slot.readers = slot.readers + 1;
        proof {
            assert(self@ =~= read_taken(old(self)@, handle.index()));
            lemma_wf_kept(old(self)@, handle.index(), old(self).slot(handle).with_reader());
        }
        Ok(())
    }

    /// Gives one read access back.
    pub fn release_read(&mut self, handle: TunerHandle)
        requires
            old(self).wf(),
            old(self).holds(handle),
            old(self).slot(handle).readers > 0,
        ensures
            final(self).wf(),
            final(self).id() == old(self).id(),
            final(self)@ == read_given_back(old(self)@, handle.index()),
    {
        let slot = &mut self.slots[handle.slot];
        slot.readers = slot.readers - 1;
        proof {
            assert(self@ =~= read_given_back(old(self)@, handle.index()));
            lemma_wf_kept(old(self)@, handle.index(), old(self).slot(handle).without_reader());
        }
    }

    /// Asks for write access. It is granted exactly when no access at all is
    /// out; a refusal changes nothing.
    pub fn acquire_write(&mut self, handle: TunerHandle) -> (granted: Result<(), AccessConflict>)
        requires
            old(self).wf(),
            old(self).holds(handle),
        ensures
            final(self).wf(),
            final(self).id() == old(self).id(),
            granted is Ok <==> old(self).slot(handle).can_write(),
            granted is Ok ==> final(self)@ == write_taken(old(self)@, handle.index()),
            granted is Err ==> final(self)@ == old(self)@,
    {
        if self.slots[handle.slot].writing || self.slots[handle.slot].readers > 0 {
            return Err(AccessConflict);
        }
        let slot = &mut self.slots[handle.slot];
        slot.writing = true;
        proof {
            assert(self@ =~= write_taken(old(self)@, handle.index()));
            lemma_wf_kept(old(self)@, handle.index(), old(self).slot(handle).with_writer());
        }
        Ok(())
    }

    /// Gives the write access back.
    pub fn release_write(&mut self, handle: TunerHandle)
        requires
            old(self).wf(),
            old(self).holds(handle),
            old(self).slot(handle).writing,
        ensures
            final(self).wf(),
            final(self).id() == old(self).id(),
            final(self)@ == write_given_back(old(self)@, handle.index()),
    {
        let slot = &mut self.slots[handle.slot];
        slot.writing = false;
        proof {
            assert(self@ =~= write_given_back(old(self)@, handle.index()));
            lemma_wf_kept(old(self)@, handle.index(), old(self).slot(handle).without_writer());
        }
    }

    /// Switches the named tuner on, under a read access that is taken for the
    /// call and given back before it returns. Fails, and changes nothing,
    /// exactly when the write access is out.
    pub fn switch_on(&mut self, handle: TunerHandle) -> (done: Result<Notice, AccessConflict>)
        requires
            old(self).wf(),
            old(self).holds(handle),
            old(self).slot(handle).readers < usize::MAX,
        ensures
            final(self).wf(),
            final(self).id() == old(self).id(),
            done is Ok <==> old(self).slot(handle).can_read(),
            match done {
                Ok(notice) => final(self)@ == switched_on_at(old(self)@, handle.index())
                    && notice@ == old(self).slot(handle).tuner.on_notice(),
                Err(_) => final(self)@ == old(self)@,
            },
    {
        match self.acquire_read(handle) {
            Err(conflict) => Err(conflict),
            Ok(()) => {
                let ghost held = self@;
                assert(self.slots@.len() == held.len());
                let notice = self.slots[handle.slot].tuner.on();
                proof {
                    let now = held[handle.index()].with_tuner(held[handle.index()].tuner.switched_on());
                    assert(self@ =~= held.update(handle.index(), now));
                    lemma_wf_kept(held, handle.index(), now);
                }
                self.release_read(handle);
                assert(self@ =~= switched_on_at(old(self)@, handle.index()));
                Ok(notice)
            },
        }
    }

    /// Switches the named tuner off, under a read access that is taken for
    /// the call and given back before it returns. Fails, and changes nothing,
    /// exactly when the write access is out.
    pub fn switch_off(&mut self, handle: TunerHandle) -> (done: Result<Notice, AccessConflict>)
        requires
            old(self).wf(),
            old(self).holds(handle),
            old(self).slot(handle).readers < usize::MAX,
        ensures
            final(self).wf(),
            final(self).id() == old(self).id(),
            done is Ok <==> old(self).slot(handle).can_read(),
            match done {
                Ok(notice) => final(self)@ == switched_off_at(old(self)@, handle.index())
                    && notice@ == old(self).slot(handle).tuner.off_notice(),
                Err(_) => final(self)@ == old(self)@,
            },
    {
        match self.acquire_read(handle) {
            Err(conflict) => Err(conflict),
            Ok(()) => {
                let ghost held = self@;
                assert(self.slots@.len() == held.len());
                let notice = self.slots[handle.slot].tuner.off();
                proof {
                    let now = held[handle.index()].with_tuner(held[handle.index()].tuner.switched_off());
                    assert(self@ =~= held.update(handle.index(), now));
                    lemma_wf_kept(held, handle.index(), now);
                }
                self.release_read(handle);
                assert(self@ =~= switched_off_at(old(self)@, handle.index()));
                Ok(notice)
            },
        }
    }

    /// Tunes the named tuner to the frequency of these bits, under the write
    /// access that is out already: the call of the one who holds it. The
    /// access stays out.
    pub fn tune_held(&mut self, handle: TunerHandle, bits: u64) -> (notice: Notice)
        requires
            old(self).wf(),
            old(self).holds(handle),
            old(self).slot(handle).writing,
        ensures
            final(self).wf(),
            final(self).id() == old(self).id(),
            final(self)@ == tuned_at(old(self)@, handle.index(), bits),
            notice@ == old(self).slot(handle).tuner.frequency_notice(bits),
    {
        let ghost held = self@;
        assert(self.slots@.len() == held.len());
        let notice = self.slots[handle.slot].tuner.set_frequency(bits);
        proof {
            let now = held[handle.index()].with_tuner(held[handle.index()].tuner.tuned(bits));
            assert(self@ =~= held.update(handle.index(), now));
            lemma_wf_kept(held, handle.index(), now);
        }
        notice
    }

    /// Tunes the named tuner to the frequency of these bits, under the write
    /// access, which is taken for the call and given back before it returns.
    /// Fails, and changes nothing, exactly when any access is out.
    pub fn tune(&mut self, handle: TunerHandle, bits: u64) -> (done: Result<Notice, AccessConflict>)
        requires
            old(self).wf(),
            old(self).holds(handle),
        ensures
            final(self).wf(),
            final(self).id() == old(self).id(),
            done is Ok <==> old(self).slot(handle).can_write(),
            match done {
                Ok(notice) => final(self)@ == tuned_at(old(self)@, handle.index(), bits)
                    && notice@ == old(self).slot(handle).tuner.frequency_notice(bits),
                Err(_) => final(self)@ == old(self)@,
            },
    {
        match self.acquire_write(handle) {
            Err(conflict) => Err(conflict),
            Ok(()) => {
                let ghost held = self@;
                assert(self.slots@.len() == held.len());
                let notice = self.slots[handle.slot].tuner.set_frequency(bits);
                proof {
                    let now = held[handle.index()].with_tuner(held[handle.index()].tuner.tuned(bits));
                    assert(self@ =~= held.update(handle.index(), now));
                    lemma_wf_kept(held, handle.index(), now);
                }
                self.release_write(handle);
                assert(self@ =~= tuned_at(old(self)@, handle.index(), bits));
                Ok(notice)
            },
        }
    }
}

/// The holder of the write access is the one whose tuning counts. A request
/// made while the access is out is refused and changes nothing; what the
/// holder then tunes to is the frequency that stands when the access is
/// given back, and the slot is free again.
pub proof fn lemma_holder_of_write_access_tunes(slot: SlotView, bits: u64)
    requires
        slot.wf(),
        slot.writing,
    ensures
        !slot.can_write(),
        !slot.can_read(),
        slot.with_tuner(slot.tuner.tuned(bits)).without_writer().tuner.frequency_bits == Some(
            bits,
        ),
        slot.with_tuner(slot.tuner.tuned(bits)).without_writer().free(),
{
}

/// Write access is exclusive. It is granted on a free slot and on no other;
/// and while it is out no request is granted, neither a second write access
/// nor a read access. So of two requests for write access in a row on a free
/// slot, the first is granted and the second is refused.
pub proof fn lemma_write_access_is_exclusive(slot: SlotView)
    requires
        slot.wf(),
    ensures
        slot.can_write() <==> slot.free(),
        slot.can_write() ==> slot.with_writer().wf(),
        slot.can_write() ==> !slot.with_writer().can_write(),
        slot.can_write() ==> !slot.with_writer().can_read(),
{
}

/// While a read access is out, write access is refused and read access is
/// still granted.
pub proof fn lemma_readers_share(slot: SlotView)
    requires
        slot.can_read(),
    ensures
        slot.with_reader().wf(),
        slot.with_reader().can_read(),
        !slot.with_reader().can_write(),
{
}

/// An access that was taken and given back leaves the slot as it was.
pub proof fn lemma_access_given_back(slot: SlotView)
    ensures
        slot.with_reader().without_reader() == slot,
        slot.can_write() ==> slot.with_writer().without_writer() == slot,
{
}

/// Of two handles of one bank: equal handles name one tuner, not two copies,
/// and what is tuned through one is seen through the other. Different
/// handles name different tuners, and what is tuned through one leaves the
/// other's slot as it was.
pub proof fn lemma_handles_alias(slots: Seq<SlotView>, a: TunerHandle, b: TunerHandle, bits: u64)
    requires
        a.bank_id() == b.bank_id(),
        0 <= a.index() < slots.len(),
        0 <= b.index() < slots.len(),
    ensures
        a == b ==> tuned_at(slots, a.index(), bits)[b.index()].tuner == slots[a.index()].tuner.tuned(bits),
        a == b ==> tuned_at(slots, a.index(), bits)[b.index()].tuner.frequency_bits == Some(bits),
        a != b ==> tuned_at(slots, a.index(), bits)[b.index()] == slots[b.index()],
{
    a.lemma_index_injective(b);
}

/// A bank only grows: a handle that it holds is still held after a tuner is
/// added, and names the same slot with the same state.
pub proof fn lemma_handles_stay_good(slots: Seq<SlotView>, h: TunerHandle, added: SlotView)
    requires
        0 <= h.index() < slots.len(),
    ensures
        0 <= h.index() < slots.push(added).len(),
        slots.push(added)[h.index()] == slots[h.index()],
{
}

} // verus!
