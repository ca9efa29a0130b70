//! The growable instance buffer's capacity and contents policy.
//!
//! A [`DynamicStorageBuffer`] tracks the logical state of one GPU storage
//! buffer holding a packed array of fixed-size instance records: the live
//! records and the slot capacity. Replacing data keeps the existing
//! allocation while it is large enough, grows it to the next power of two
//! otherwise, and shrinks only on an explicit request. Each mutation
//! reports in a [`BufferUpdate`] what the GPU side must do, so that the
//! buffer and its binding are always replaced together.

use crate::pow2::{
    is_power_of_two, lemma_next_pow2_ge, lemma_next_pow2_is_pow2, next_pow2, next_power_of_two,
};
use vstd::prelude::*;

verus! {

/// Mathematical state of a growable instance buffer: the live records and
/// the number of record slots the allocation can hold.
pub struct StorageView<I> {
    pub contents: Seq<I>,
    pub capacity: nat,
}

/// The records always fit in the allocation, and the record count fits the
/// 32-bit length the draw call takes.
pub open spec fn storage_inv<I>(v: StorageView<I>) -> bool {
    &&& v.contents.len() <= v.capacity
    &&& v.contents.len() <= u32::MAX
}

/// What the GPU side must do after a data replacement: overwrite the
/// existing buffer in place, or allocate `new_capacity` record slots and
/// swap buffer and binding together.
#[derive(Debug, Copy, Clone, Eq, PartialEq, Structural)]
pub enum BufferUpdate {
    InPlace,
    Reallocated { new_capacity: u64 },
}

/// The state after `set_new_data`: the records are replaced wholesale;
/// capacity is kept if they fit and grows to the next power of two if not.
pub open spec fn set_new_data_spec<I>(v: StorageView<I>, records: Seq<I>) -> StorageView<I> {
    if records.len() <= v.capacity {
        StorageView { contents: records, capacity: v.capacity }
    } else {
        StorageView { contents: records, capacity: next_pow2(records.len()) }
    }
}

/// The state after `shrink_to_fit`: capacity drops to the record count and
/// the records are untouched.
pub open spec fn shrink_to_fit_spec<I>(v: StorageView<I>) -> StorageView<I> {
    StorageView { contents: v.contents, capacity: v.contents.len() }
}

/// Logical state of one GPU-backed instance buffer of records `I`.
pub struct DynamicStorageBuffer<I> {
    data: Vec<I>,
    item_capacity: u64,
}

impl<I> View for DynamicStorageBuffer<I> {
    type V = StorageView<I>;

    closed spec fn view(&self) -> StorageView<I> {
        StorageView { contents: self.data@, capacity: self.item_capacity as nat }
    }
}

impl<I: Copy> DynamicStorageBuffer<I> {
    pub open spec fn well_formed(&self) -> bool {
        storage_inv(self@)
    }

    /// An empty buffer with the default capacity of four records, small
    /// enough not to over-allocate idle buffers.
    pub fn new() -> (buffer: Self)
        ensures
            buffer@.capacity == 4,
            buffer@.contents =~= Seq::<I>::empty(),
            buffer.well_formed(),
    {
        Self::with_capacity(4)
    }

    /// An empty buffer with room for `item_capacity` records.
    pub fn with_capacity(item_capacity: u64) -> (buffer: Self)
        ensures
            buffer@.capacity == item_capacity,
            buffer@.contents =~= Seq::<I>::empty(),
            buffer.well_formed(),
    {
        DynamicStorageBuffer { data: Vec::new(), item_capacity }
    }

    /// The number of live records.
    pub fn len(&self) -> (n: u32)
        requires
            self.well_formed(),
        ensures
            n as nat == self@.contents.len(),
    {
        self.data.len() as u32
    }

    /// The number of record slots the current allocation holds.
    pub fn capacity(&self) -> (c: u64)
        ensures
            c as nat == self@.capacity,
    {
        self.item_capacity
    }

    /// The live records, in order.
    pub fn records(&self) -> (records: &Vec<I>)
        ensures
            records@ == self@.contents,
    {
        &self.data
    }

    /// The allocation size in bytes for `item_capacity` record slots.
    pub fn item_to_byte_capacity(item_capacity: u64) -> (bytes: u64)
        requires
            item_capacity * size_of::<I>() <= u64::MAX,
        ensures
            bytes as nat == item_capacity * size_of::<I>(),
    {
        let item_size = core::mem::size_of::<I>();
        item_capacity * (item_size as u64)
    }

    /// Replaces the logical contents with exactly `data`. Keeps the
    /// allocation when the records fit; otherwise grows it to the next
    /// power of two and reports the new capacity, so the caller replaces
    /// buffer and binding together.
    pub fn set_new_data(&mut self, data: &[I]) -> (update: BufferUpdate)
        requires
            old(self).well_formed(),
            data@.len() <= u32::MAX,
        ensures
            final(self).well_formed(),
            final(self)@ == set_new_data_spec(old(self)@, data@),
            data@.len() <= old(self)@.capacity ==> update == BufferUpdate::InPlace,
            data@.len() > old(self)@.capacity ==> update == (BufferUpdate::Reallocated {
                new_capacity: next_pow2(data@.len()) as u64,
            }),
    {
        let n = data.len();
        let mut new_data: Vec<I> = Vec::new();
        let mut i: usize = 0;
        while i < n
            invariant
                i <= n,
                n == data@.len(),
                new_data@ =~= data@.take(i as int),
            decreases n - i,
        {
            new_data.push(data[i]);
            i = i + 1;
        }
        assert(new_data@ =~= data@);
        self.data = new_data;
        if n as u64 <= self.item_capacity {
            BufferUpdate::InPlace
        } else {
            proof {
                lemma_next_pow2_ge(n as nat);
            }
            let new_capacity = next_power_of_two(n as u64);
            self.item_capacity = new_capacity;
            BufferUpdate::Reallocated { new_capacity }
        }
    }

    /// Drops the capacity to the record count; the live records are kept
    /// bitwise. The caller copies the live prefix into the fresh
    /// allocation and replaces buffer and binding together.
    pub fn shrink_to_fit(&mut self)
        requires
            old(self).well_formed(),
        ensures
            final(self).well_formed(),
            final(self)@ == shrink_to_fit_spec(old(self)@),
            final(self)@.capacity == old(self)@.contents.len(),
            final(self)@.contents == old(self)@.contents,
    {
        self.item_capacity = self.data.len() as u64;
    }
}

/// The state after a run of `set_new_data` calls, applied left to right.
pub open spec fn apply_set_calls<I>(v: StorageView<I>, calls: Seq<Seq<I>>) -> StorageView<I>
    decreases calls.len(),
{
    if calls.len() == 0 {
        v
    } else {
        set_new_data_spec(apply_set_calls(v, calls.drop_last()), calls.last())
    }
}

/// One `set_new_data` step keeps the buffer well formed, stores exactly the
/// given records, never lowers capacity, and only ever moves capacity to a
/// power of two.
pub proof fn lemma_set_new_data_step<I>(v: StorageView<I>, records: Seq<I>)
    requires
        storage_inv(v),
        records.len() <= u32::MAX,
    ensures
        ({
            let stepped = set_new_data_spec(v, records);
            &&& storage_inv(stepped)
            &&& stepped.contents == records
            &&& stepped.capacity >= v.capacity
            &&& stepped.capacity == v.capacity || is_power_of_two(stepped.capacity)
        }),
{
    if records.len() > v.capacity {
        lemma_next_pow2_ge(records.len());
        lemma_next_pow2_is_pow2(records.len());
    }
}

/// Growth idempotence law: over any run of `set_new_data` calls with
/// non-decreasing record counts, after each call the stored records are
/// exactly that call's records, capacity covers them, and capacity is a
/// power of two once any growth has occurred.
pub proof fn lemma_growth_idempotence<I>(v0: StorageView<I>, calls: Seq<Seq<I>>)
    requires
        storage_inv(v0),
        forall|k: int| 0 <= k < calls.len() ==> #[trigger] calls[k].len() <= u32::MAX,
        forall|k: int| 0 <= k < calls.len() - 1 ==> calls[k].len() <= #[trigger] calls[k
            + 1].len(),
    ensures
        forall|k: int|
            0 < k <= calls.len() ==> {
                let vk = #[trigger] apply_set_calls(v0, calls.take(k));
                &&& storage_inv(vk)
                &&& vk.contents == calls[k - 1]
                &&& vk.capacity >= calls[k - 1].len()
                &&& vk.capacity == v0.capacity || is_power_of_two(vk.capacity)
            },
    decreases calls.len(),
{
    if calls.len() > 0 {
        let shorter = calls.drop_last();
        lemma_growth_idempotence(v0, shorter);
        assert forall|k: int|
            0 < k <= calls.len() implies {
            let vk = #[trigger] apply_set_calls(v0, calls.take(k));
            &&& storage_inv(vk)
            &&& vk.contents == calls[k - 1]
            &&& vk.capacity >= calls[k - 1].len()
            &&& vk.capacity == v0.capacity || is_power_of_two(vk.capacity)
        } by {
            if k < calls.len() {
                assert(calls.take(k) =~= shorter.take(k));
            } else {
                assert(calls.take(k) =~= calls);
                let before = apply_set_calls(v0, shorter);
                if shorter.len() > 0 {
                    assert(shorter =~= shorter.take(shorter.len() as int));
                }
                lemma_set_new_data_step(before, calls.last());
            }
        }
    }
}

/// No premature shrink law: a `set_new_data` call never reduces capacity,
/// whatever the record counts do; only `shrink_to_fit` does.
pub proof fn lemma_no_premature_shrink<I>(v0: StorageView<I>, calls: Seq<Seq<I>>)
    ensures
        forall|k: int|
            0 <= k < calls.len() ==> apply_set_calls(v0, calls.take(k + 1)).capacity
                >= #[trigger] apply_set_calls(v0, calls.take(k)).capacity,
        apply_set_calls(v0, calls).capacity >= v0.capacity,
    decreases calls.len(),
{
    if calls.len() > 0 {
        let shorter = calls.drop_last();
        lemma_no_premature_shrink(v0, shorter);
        assert forall|k: int|
            0 <= k < calls.len() implies apply_set_calls(v0, calls.take(k + 1)).capacity
            >= #[trigger] apply_set_calls(v0, calls.take(k)).capacity by {
            if k + 1 < calls.len() {
                assert(calls.take(k) =~= shorter.take(k));
                assert(calls.take(k + 1) =~= shorter.take(k + 1));
            } else {
                assert(calls.take(k) =~= shorter);
                assert(calls.take(k + 1) =~= calls);
                let before = apply_set_calls(v0, shorter);
                if calls.last().len() > before.capacity {
                    lemma_next_pow2_ge(calls.last().len());
                }
            }
        }
        assert(apply_set_calls(v0, calls.take(calls.len() as int)).capacity >= apply_set_calls(
            v0,
            calls.take(calls.len() - 1),
        ).capacity);
        assert(calls.take(calls.len() as int) =~= calls);
        assert(calls.take(calls.len() - 1) =~= shorter);
    }
}

} // verus!
