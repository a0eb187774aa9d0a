//! A userspace resource allocator for a capability-based microkernel.
//!
//! The allocator turns a small set of boot-granted capabilities (raw untyped
//! memory, a capability table, a virtual address space root) into the working
//! resources a process needs: capability-table slots, typed kernel objects,
//! mapped virtual pages, and physically-addressed DMA-capable memory.
//!
//! The kernel itself is reached only through explicit request values
//! ([`kcall::KernelRequest`]): every operation here either is pure
//! bookkeeping, or is a state machine that emits the next kernel request and
//! consumes the kernel's reply code. A thin unverified driver performs the
//! actual capability invocations and feeds the replies back.

use vstd::arithmetic::power2::pow2;
use vstd::bits::lemma_usize_shl_is_mul;
use vstd::prelude::*;

pub mod init_cap;
pub mod kcall;
pub mod object_type;
pub mod pmem;
pub mod untyped;
pub mod vka;
pub mod vspace;

verus! {

/// Smallest untyped size class the allocator tracks, as a power-of-two
/// exponent.
pub const MIN_UNTYPED_SIZE: usize = 4;

/// Largest untyped size class the allocator tracks, as a power-of-two
/// exponent.
pub const MAX_UNTYPED_SIZE: usize = 32;

/// Capacity of the boot-time untyped inventory.
pub const MAX_UNTYPED_ITEMS: usize = 256;

/// Marker physical address meaning "no particular address requested".
pub const VKA_NO_PADDR: usize = 0;

/// Base of the virtual-address region handed out by the address-space
/// manager.
pub const VSPACE_START: usize = 0x1000_0000;

/// Size of a small page, as a power-of-two exponent.
pub const PAGE_BITS_4K: usize = 12;

/// Size of a small page in bytes.
pub const PAGE_SIZE_4K: usize = 4096;

/// Number of size-class buckets, one per exponent from `MIN_UNTYPED_SIZE`
/// to `MAX_UNTYPED_SIZE` inclusive.
pub const NUM_SIZE_CLASSES: usize = 29;

/// Recoverable allocation failures.
///
/// Invariant violations (a physical-address mismatch after address-targeted
/// mapping, for example) are reported as faults by the operation state
/// machines and deliberately do not appear here.
#[derive(Clone, Copy, Debug, PartialEq, Eq, Structural)]
pub enum Error {
    /// No free capability slot, or no untyped region large enough or
    /// splittable to the requested size or physical address.
    ResourceExhausted,
    /// A requested physical address is not contained in any known untyped
    /// region.
    InvalidAddress,
    /// A kernel invocation reported failure for a reason this layer does not
    /// further classify.
    Other,
}

/// One raw or split untyped memory capability: the region spans
/// `2^size_bits` bytes starting at `paddr`.
#[derive(Clone, Copy, Debug)]
pub struct UntypedItem {
    pub cap: usize,
    pub size_bits: usize,
    pub paddr: usize,
    pub is_device: bool,
}

/// A contiguous run of capability slots: `count` slots starting at `first`.
#[derive(Clone, Copy, Debug)]
pub struct CapRange {
    pub first: usize,
    pub count: usize,
}

/// An inventory entry: an untyped item plus its one-way `is_free` flag.
#[derive(Clone, Copy, Debug)]
pub struct InitUntypedItem {
    pub item: UntypedItem,
    pub is_free: bool,
}

impl UntypedItem {
    /// True when the item describes a well-formed power-of-two region: the
    /// exponent lies in the tracked range, the base is aligned to the
    /// region's own size, and the region does not wrap the address space.
    pub open spec fn wf(self) -> bool {
        &&& MIN_UNTYPED_SIZE <= self.size_bits <= MAX_UNTYPED_SIZE
        &&& self.size_bits < usize::BITS
        &&& self.paddr as int % pow2(self.size_bits as nat) as int == 0
        &&& self.paddr + pow2(self.size_bits as nat) <= usize::MAX
    }

    /// Builds an inventory entry from a boot-granted untyped description.
    pub fn new(cap: usize, size_bits: usize, paddr: usize, is_device: bool) -> (r: UntypedItem)
        requires
            MIN_UNTYPED_SIZE <= size_bits <= MAX_UNTYPED_SIZE,
            size_bits < usize::BITS,
            paddr as int % pow2(size_bits as nat) as int == 0,
            paddr + pow2(size_bits as nat) <= usize::MAX,
        ensures
            r == (UntypedItem { cap, size_bits, paddr, is_device }),
            r.wf(),
    {
        UntypedItem { cap, size_bits, paddr, is_device }
    }
}

/// Computes `2^e` as a machine word.
pub fn pow2_usize(e: usize) -> (r: usize)
    requires
        e < usize::BITS,
        pow2(e as nat) <= usize::MAX,
    ensures
        r == pow2(e as nat),
{
    proof {
        lemma_usize_shl_is_mul(1, e);
    }
    1usize << e
}

/// The single owner of all allocator state: the capability-slot range, the
/// boot-time untyped inventory, the per-size-class free lists of already
/// split untyped capabilities, and the virtual-address-space cursor.
pub struct Allocator {
    /// Root page directory for the managed virtual address space.
    pub page_directory: usize,
    /// The most recently created page-table capability.
    pub page_table: usize,
    /// Virtual-address cursor: the next address to hand out.
    pub last_allocated: usize,
    /// The capability table slots are allocated from.
    pub root_cnode: usize,
    /// Depth of that capability table.
    pub root_cnode_depth: usize,
    /// Offset of that capability table.
    pub root_cnode_offset: usize,
    /// The contiguous range of slots this allocator owns.
    pub cslots: CapRange,
    /// How many slots of `cslots` have been handed out.
    pub num_slots_used: usize,
    /// The boot-time untyped inventory, read-only after bootstrap except for
    /// the one-way `is_free` flags.
    pub init_untyped_items: Vec<InitUntypedItem>,
    /// Runs of already-split untyped capabilities, one bucket per size class
    /// exponent from `MIN_UNTYPED_SIZE` to `MAX_UNTYPED_SIZE`.
    pub untyped_items: Vec<CapRange>,
}

impl Allocator {
    /// The allocator's internal invariant.
    pub open spec fn wf(self) -> bool {
        &&& self.cslots.first + self.cslots.count <= usize::MAX
        &&& self.num_slots_used <= self.cslots.count
        &&& self.init_untyped_items.len() <= MAX_UNTYPED_ITEMS
        &&& forall|i: int|
            0 <= i < self.init_untyped_items.len() ==> (
            #[trigger] self.init_untyped_items[i]).item.wf()
        &&& self.untyped_items.len() == NUM_SIZE_CLASSES
        &&& forall|b: int|
            0 <= b < self.untyped_items.len() ==> (#[trigger] self.untyped_items[b]).first
                + self.untyped_items[b].count <= usize::MAX
        &&& self.last_allocated as int % PAGE_SIZE_4K as int == 0
    }

    /// The next slot a successful slot allocation will return.
    pub open spec fn next_slot(self) -> int {
        self.cslots.first + self.num_slots_used
    }

    /// How many slots are still free.
    pub open spec fn slots_free(self) -> int {
        self.cslots.count - self.num_slots_used
    }

    /// `self`, with the used-slot counter replaced.
    pub open spec fn with_slots_used(self, n: usize) -> Allocator {
        Allocator { num_slots_used: n, ..self }
    }

    /// Builds an allocator owning the given slot range, with an empty
    /// untyped inventory and an unset address-space root.
    pub fn new(
        root_cnode: usize,
        root_cnode_depth: usize,
        root_cnode_offset: usize,
        cslots: CapRange,
    ) -> (r: Allocator)
        requires
            cslots.first + cslots.count <= usize::MAX,
        ensures
            r.wf(),
            r.root_cnode == root_cnode,
            r.root_cnode_depth == root_cnode_depth,
            r.root_cnode_offset == root_cnode_offset,
            r.cslots == cslots,
            r.num_slots_used == 0,
            r.init_untyped_items@ =~= Seq::<InitUntypedItem>::empty(),
            forall|b: int|
                0 <= b < r.untyped_items.len() ==> (#[trigger] r.untyped_items[b]).count == 0,
            r.page_directory == 0,
            r.page_table == 0,
            r.last_allocated == 0,
    {
        let mut buckets: Vec<CapRange> = Vec::new();
        let mut b: usize = 0;
        while b < NUM_SIZE_CLASSES
            invariant
                b <= NUM_SIZE_CLASSES,
                buckets.len() == b,
                forall|i: int| 0 <= i < b ==> (#[trigger] buckets[i]).count == 0,
                forall|i: int| 0 <= i < b ==> (#[trigger] buckets[i]).first == 0,
            decreases NUM_SIZE_CLASSES - b,
        {
            buckets.push(CapRange { first: 0, count: 0 });
            b = b + 1;
        }
        Allocator {
            page_directory: 0,
            page_table: 0,
            last_allocated: 0,
            root_cnode,
            root_cnode_depth,
            root_cnode_offset,
            cslots,
            num_slots_used: 0,
            init_untyped_items: Vec::new(),
            untyped_items: buckets,
        }
    }

    /// Records one boot-granted untyped capability in the inventory.
    ///
    /// Fails with `ResourceExhausted` once the fixed inventory capacity is
    /// reached.
    pub fn add_initial_untyped(&mut self, item: UntypedItem) -> (r: Result<(), Error>)
        requires
            old(self).wf(),
            item.wf(),
        ensures
            final(self).wf(),
            match r {
                Ok(()) => {
                    &&& old(self).init_untyped_items.len() < MAX_UNTYPED_ITEMS
                    &&& *final(self) == (Allocator {
                        init_untyped_items: final(self).init_untyped_items,
                        ..*old(self)
                    })
                    &&& final(self).init_untyped_items@ == old(self).init_untyped_items@.push(
                        InitUntypedItem { item, is_free: true },
                    )
                },
                Err(e) => {
                    &&& e == Error::ResourceExhausted
                    &&& old(self).init_untyped_items.len() == MAX_UNTYPED_ITEMS
                    &&& *final(self) == *old(self)
                },
            },
    {
        if self.init_untyped_items.len() < MAX_UNTYPED_ITEMS {
            self.init_untyped_items.push(InitUntypedItem { item, is_free: true });
            Ok(())
        } else {
            Err(Error::ResourceExhausted)
        }
    }

    /// Records a run of already-split untyped capabilities as the free list
    /// of one size class. The class must be in range and currently empty.
    pub fn add_untyped_items(&mut self, size_bits: usize, range: CapRange)
        requires
            old(self).wf(),
            MIN_UNTYPED_SIZE <= size_bits <= MAX_UNTYPED_SIZE,
            old(self).untyped_items[size_bits - MIN_UNTYPED_SIZE].count == 0,
            range.first + range.count <= usize::MAX,
        ensures
            final(self).wf(),
            *final(self) == (Allocator { untyped_items: final(self).untyped_items, ..*old(self) }),
            final(self).untyped_items@ == old(self).untyped_items@.update(
                size_bits - MIN_UNTYPED_SIZE,
                range,
            ),
    {
        let idx = size_bits - MIN_UNTYPED_SIZE;
        self.untyped_items.set(idx, range);
    }

    /// Sets the address-space root capability and resets the mapping cursor
    /// to the process-reserved base.
    pub fn bootstrap_vspace(&mut self, pd_cap: usize) -> (r: Result<(), Error>)
        requires
            old(self).wf(),
        ensures
            final(self).wf(),
            r == Ok::<(), Error>(()),
            *final(self) == (Allocator {
                page_directory: pd_cap,
                last_allocated: VSPACE_START,
                ..*old(self)
            }),
    {
        self.page_directory = pd_cap;
        self.last_allocated = VSPACE_START;
        Ok(())
    }

    /// Returns the page directory capability for this address space.
    pub fn vspace_get_root(&self) -> (r: usize)
        ensures
            r == self.page_directory,
    {
        self.page_directory
    }
}

} // verus!
