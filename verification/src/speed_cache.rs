//! The slots of the speed cache: the small linear cache of recently accessed
//! entries that queries write to and rebuilds empty. Addresses and records
//! are the parties' shares, whatever their type.
use vstd::prelude::*;
use vstd::slice::slice_to_vec;

verus! {

/// `length` slots of address and record shares, the first `num_stored`
/// of them filled.
pub struct SpeedCache<A, R> {
    pub length: usize,
    pub log_address_space_size: usize,
    pub num_stored: usize,
    pub addrs: Vec<A>,
    pub data: Vec<R>,
}

impl<A: Copy, R: Copy> SpeedCache<A, R> {
    /// One address and one record per slot, and no more filled slots than
    /// slots.
    pub open spec fn wf(&self) -> bool {
        &&& self.addrs@.len() == self.length
        &&& self.data@.len() == self.length
        &&& self.num_stored <= self.length
    }

    /// An empty cache of `length` slots, each holding the dummy address
    /// and the empty record.
    pub fn new(length: usize, log_address_space_size: usize, dummy_addr: A, empty_record: R) -> (c:
        Self)
        ensures
            c.wf(),
            c.length == length,
            c.log_address_space_size == log_address_space_size,
            c.num_stored == 0,
            c.addrs@ == Seq::new(length as nat, |i: int| dummy_addr),
            c.data@ == Seq::new(length as nat, |i: int| empty_record),
    {
        let mut addrs: Vec<A> = Vec::new();
        let mut data: Vec<R> = Vec::new();
        let mut i: usize = 0;
        while i < length
            invariant
                i <= length,
                addrs@ == Seq::new(i as nat, |k: int| dummy_addr),
                data@ == Seq::new(i as nat, |k: int| empty_record),
            decreases length - i,
        {
            addrs.push(dummy_addr);
            data.push(empty_record);
            i = i + 1;
            assert(addrs@ =~= Seq::new(i as nat, |k: int| dummy_addr));
            assert(data@ =~= Seq::new(i as nat, |k: int| empty_record));
        }
        SpeedCache { length, log_address_space_size, num_stored: 0, addrs, data }
    }

    /// Write a batch of entries to the next free slots.
    pub fn write(&mut self, write_addrs: Vec<A>, write_data: Vec<R>)
        requires
            old(self).wf(),
            write_addrs@.len() == write_data@.len(),
            old(self).num_stored < old(self).length,
            old(self).num_stored + write_addrs@.len() <= old(self).length,
        ensures
            final(self).wf(),
            final(self).length == old(self).length,
            final(self).log_address_space_size == old(self).log_address_space_size,
            final(self).num_stored == old(self).num_stored + write_addrs@.len(),
            final(self).addrs@ == old(self).addrs@.subrange(0, old(self).num_stored as int)
                + write_addrs@ + old(self).addrs@.subrange(
                final(self).num_stored as int,
                old(self).length as int,
            ),
            final(self).data@ == old(self).data@.subrange(0, old(self).num_stored as int)
                + write_data@ + old(self).data@.subrange(
                final(self).num_stored as int,
                old(self).length as int,
            ),
    {
        let start = self.num_stored;
        let end = start + write_addrs.len();
        let ghost a0 = self.addrs@;
        let ghost d0 = self.data@;
        let mut i: usize = 0;
        while i < write_addrs.len()
            invariant
                self.length == old(self).length,
                self.log_address_space_size == old(self).log_address_space_size,
                start == old(self).num_stored,
                start + write_addrs@.len() == end,
                end <= self.length,
                write_addrs@.len() == write_data@.len(),
                i <= write_addrs@.len(),
                self.addrs@.len() == a0.len() == self.length,
                self.data@.len() == d0.len() == self.length,
                forall|k: int| 0 <= k < start ==> #[trigger] self.addrs@[k] == a0[k],
                forall|k: int| 0 <= k < start ==> #[trigger] self.data@[k] == d0[k],
                forall|k: int| 0 <= k < i ==> #[trigger] self.addrs@[start + k] == write_addrs@[k],
                forall|k: int| 0 <= k < i ==> #[trigger] self.data@[start + k] == write_data@[k],
                forall|k: int| start + i <= k < self.length ==> #[trigger] self.addrs@[k] == a0[k],
                forall|k: int| start + i <= k < self.length ==> #[trigger] self.data@[k] == d0[k],
            decreases write_addrs@.len() - i,
        {
            self.addrs.set(start + i, write_addrs[i]);
            self.data.set(start + i, write_data[i]);
            i = i + 1;
        }
        self.num_stored = end;
        assert(self.addrs@ =~= a0.subrange(0, start as int) + write_addrs@ + a0.subrange(
            end as int,
            self.length as int,
        )) by {
            assert forall|k: int| start <= k < end implies self.addrs@[k] == write_addrs@[k
                - start] by {
                assert(self.addrs@[start + (k - start)] == write_addrs@[k - start]);
            }
        }
        assert(self.data@ =~= d0.subrange(0, start as int) + write_data@ + d0.subrange(
            end as int,
            self.length as int,
        )) by {
            assert forall|k: int| start <= k < end implies self.data@[k] == write_data@[k
                - start] by {
                assert(self.data@[start + (k - start)] == write_data@[k - start]);
            }
        }
    }

    /// Leave the next `num_to_skip` slots as they are and count them as
    /// filled.
    pub fn skip(&mut self, num_to_skip: usize)
        requires
            old(self).wf(),
            old(self).num_stored + num_to_skip <= old(self).length,
        ensures
            final(self).wf(),
            final(self).num_stored == old(self).num_stored + num_to_skip,
            final(self).length == old(self).length,
            final(self).log_address_space_size == old(self).log_address_space_size,
            final(self).addrs@ == old(self).addrs@,
            final(self).data@ == old(self).data@,
    {
        self.num_stored = self.num_stored + num_to_skip;
    }

    /// Whether a slot is free.
    pub fn is_writeable(&self) -> (b: bool)
        ensures
            b == (self.num_stored < self.length),
    {
        self.num_stored < self.length
    }

    /// Count every slot as free again.
    pub fn clear(&mut self)
        requires
            old(self).wf(),
        ensures
            final(self).wf(),
            final(self).num_stored == 0,
            final(self).length == old(self).length,
            final(self).log_address_space_size == old(self).log_address_space_size,
            final(self).addrs@ == old(self).addrs@,
            final(self).data@ == old(self).data@,
    {
        self.num_stored = 0;
    }

    /// All the slots of a full cache.
    pub fn extract(&mut self) -> (r: (Vec<A>, Vec<R>))
        requires
            old(self).wf(),
            old(self).num_stored == old(self).length,
        ensures
            r.0@ == old(self).addrs@,
            r.1@ == old(self).data@,
            *final(self) == *old(self),
    {
        (slice_to_vec(self.addrs.as_slice()), slice_to_vec(self.data.as_slice()))
    }
}

/// The address a lookup leaves in a matched slot: the address with bit
/// `log_address_space_size` set, which no real address has.
pub fn lookup_sentinel(log_address_space_size: usize) -> (s: u32)
    requires
        log_address_space_size < 32,
    ensures
        s == 1u32 << (log_address_space_size as u32),
{
    1u32 << (log_address_space_size as u32)
}

/// One component of a slot's address share after a lookup: xored with the
/// component of the lookup's mask, and with the sentinel where the
/// component of the found bit is set.
pub open spec fn lookup_update(addr: u32, x_mask: u32, found: bool, sentinel: u32) -> u32 {
    addr ^ x_mask ^ (if found {
        sentinel
    } else {
        0u32
    })
}

/// A lookup's local update of one component of the stored address shares:
/// the first `x_masks.len()` slots take `lookup_update`, the rest stay.
pub fn apply_lookup_to_addrs(addrs: &mut Vec<u32>, x_masks: &[u32], found: &[bool], sentinel: u32)
    requires
        found@.len() == x_masks@.len(),
        x_masks@.len() <= old(addrs)@.len(),
    ensures
        final(addrs)@.len() == old(addrs)@.len(),
        forall|i: int|
            0 <= i < x_masks@.len() ==> #[trigger] final(addrs)@[i] == lookup_update(
                old(addrs)@[i],
                x_masks@[i],
                found@[i],
                sentinel,
            ),
        forall|i: int| x_masks@.len() <= i < old(addrs)@.len() ==> #[trigger] final(addrs)@[i] == old(addrs)@[i],
{
    let n = x_masks.len();
    let mut i: usize = 0;
    while i < n
        invariant
            n == x_masks@.len() == found@.len(),
            n <= addrs@.len(),
            i <= n,
            addrs@.len() == old(addrs)@.len(),
            forall|j: int|
                0 <= j < i ==> #[trigger] addrs@[j] == lookup_update(old(addrs)@[j], x_masks@[j], found@[j], sentinel),
            forall|j: int| i <= j < old(addrs)@.len() ==> #[trigger] addrs@[j] == old(addrs)@[j],
        decreases n - i,
    {
        let found_mask: u32 = if found[i] {
            sentinel
        } else {
            0
        };
        let updated = addrs[i] ^ x_masks[i] ^ found_mask;
        addrs.set(i, updated);
        i = i + 1;
    }
}

/// A lookup takes the matched entry out of the cache: when the three
/// components of a slot's lookup mask open to the stored address where the
/// found bit opens to one and to zero where it opens to zero, the updated
/// components open to the sentinel where the found bit is one, and to the
/// unchanged address where it is zero.
pub proof fn lemma_lookup_update_opens(
    a0: u32,
    a1: u32,
    a2: u32,
    m0: u32,
    m1: u32,
    m2: u32,
    f0: bool,
    f1: bool,
    f2: bool,
    sentinel: u32,
)
    requires
        m0 ^ m1 ^ m2 == (if f0 ^ f1 ^ f2 {
            a0 ^ a1 ^ a2
        } else {
            0u32
        }),
    ensures
        lookup_update(a0, m0, f0, sentinel) ^ lookup_update(a1, m1, f1, sentinel) ^ lookup_update(
            a2,
            m2,
            f2,
            sentinel,
        ) == (if f0 ^ f1 ^ f2 {
            sentinel
        } else {
            a0 ^ a1 ^ a2
        }),
{
    let t0: u32 = if f0 {
        sentinel
    } else {
        0u32
    };
    let t1: u32 = if f1 {
        sentinel
    } else {
        0u32
    };
    let t2: u32 = if f2 {
        sentinel
    } else {
        0u32
    };
    let a = a0 ^ a1 ^ a2;
    let s = sentinel;
    let z = 0u32;
    assert((a0 ^ m0 ^ t0) ^ (a1 ^ m1 ^ t1) ^ (a2 ^ m2 ^ t2) == (a0 ^ a1 ^ a2) ^ (m0 ^ m1 ^ m2) ^ (t0 ^ t1 ^ t2)
        && a ^ a ^ s == s && a ^ z ^ z == a && s ^ s ^ s == s && s ^ s ^ z == z && s ^ z ^ s == z && z ^ s
        ^ s == z && s ^ z ^ z == s && z ^ s ^ z == s && z ^ z ^ s == s && z ^ z ^ z == z) by (bit_vector)
        requires
            z == 0u32,
    ;
}

} // verus!
