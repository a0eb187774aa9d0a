//! The allocation interface: capability slots, object sizes, and retyping
//! untyped memory into kernel objects.
//!
//! Slot allocation is pure bookkeeping. Object allocation selects an untyped
//! capability and a destination slot and emits the retype request for the
//! kernel; `retype_outcome` turns the kernel's reply into the result.

use crate::init_cap::InitCap;
use crate::kcall::{KernelRequest, KCALL_OK};
use crate::object_type::ObjectType;
use crate::{Allocator, Error, MAX_UNTYPED_SIZE};
use vstd::prelude::*;

verus! {

/// Depth in bits of the capability table that slot paths address.
pub const CSPACE_DEPTH: usize = 32;

/// The addressing descriptor the kernel protocol needs to name one slot as
/// a retype or mint destination.
#[derive(Clone, Copy, Debug)]
pub struct CSpacePath {
    pub cap_ptr: usize,
    pub cap_depth: usize,
    pub root: usize,
    pub dest: usize,
    pub dest_depth: usize,
    pub offset: usize,
    pub window: usize,
}

/// A freshly created kernel object: the slot its capability lives in and
/// the untyped capability it was retyped from.
#[derive(Clone, Copy, Debug)]
pub struct VkaObject {
    pub cptr: usize,
    pub ut: usize,
}

/// Turns the kernel's reply to a retype request into the allocation result:
/// the untyped cookie on success, `ResourceExhausted` on any failure code.
pub fn retype_outcome(cookie: usize, reply: usize) -> (r: Result<usize, Error>)
    ensures
        r == if reply == KCALL_OK {
            Ok::<usize, Error>(cookie)
        } else {
            Err::<usize, Error>(Error::ResourceExhausted)
        },
{
    if reply == KCALL_OK {
        Ok(cookie)
    } else {
        Err(Error::ResourceExhausted)
    }
}

impl Allocator {
    /// The state transition of one successful slot allocation: the returned
    /// slot is the next unused index and the used-count grows by one.
    pub open spec fn slot_alloc_ok(pre: Allocator, post: Allocator, slot: usize) -> bool {
        &&& pre.num_slots_used < pre.cslots.count
        &&& slot == pre.next_slot()
        &&& post == pre.with_slots_used((pre.num_slots_used + 1) as usize)
    }

    /// Draws the next unused slot from the owned range and marks it
    /// occupied. Fails with `ResourceExhausted` exactly when the range is
    /// exhausted.
    pub fn vka_cspace_alloc(&mut self) -> (r: Result<usize, Error>)
        requires
            old(self).wf(),
        ensures
            final(self).wf(),
            match r {
                Ok(slot) => Self::slot_alloc_ok(*old(self), *final(self), slot),
                Err(e) => {
                    &&& e == Error::ResourceExhausted
                    &&& *final(self) == *old(self)
                    &&& old(self).num_slots_used == old(self).cslots.count
                },
            },
    {
        if self.num_slots_used < self.cslots.count {
            let slot: usize = self.cslots.first + self.num_slots_used;
            self.num_slots_used = self.num_slots_used + 1;
            Ok(slot)
        } else {
            Err(Error::ResourceExhausted)
        }
    }

    /// Returns a slot to the free pool. Only the most recently allocated
    /// slot can actually be taken back (allocation is a bump pointer);
    /// returning any other slot leaves the state unchanged. This last-in,
    /// first-out narrowing is deliberate: slot reuse is opt-in and
    /// conservative here, since nothing below this allocator can tell
    /// whether an older slot's object is really gone. The caller must
    /// guarantee the kernel object the slot named has already been deleted.
    pub fn vka_cspace_free(&mut self, slot: usize) -> (r: ())
        requires
            old(self).wf(),
        ensures
            final(self).wf(),
            *final(self) == if old(self).num_slots_used > 0 && slot == old(self).cslots.first
                + old(self).num_slots_used - 1 {
                old(self).with_slots_used((old(self).num_slots_used - 1) as usize)
            } else {
                *old(self)
            },
    {
        if self.num_slots_used > 0 && slot == self.cslots.first + (self.num_slots_used - 1) {
            self.num_slots_used = self.num_slots_used - 1;
        }
    }

    /// Constructs the addressing descriptor naming `slot` as a retype or
    /// mint destination in the root capability table.
    pub fn vka_cspace_make_path(&self, slot: usize) -> (r: CSpacePath)
        ensures
            r == (CSpacePath {
                cap_ptr: slot,
                cap_depth: CSPACE_DEPTH,
                root: self.root_cnode,
                dest: self.root_cnode,
                dest_depth: self.root_cnode_depth,
                offset: slot,
                window: 1,
            }),
    {
        CSpacePath {
            cap_ptr: slot,
            cap_depth: CSPACE_DEPTH,
            root: self.root_cnode,
            dest: self.root_cnode,
            dest_depth: self.root_cnode_depth,
            offset: slot,
            window: 1,
        }
    }

    /// The size (in bits) of the untyped memory required to create an
    /// object of the given kind and size.
    pub fn vka_get_object_size(&self, obj_type: ObjectType, obj_size_bits: usize) -> (r: usize)
        requires
            obj_type.size_known(),
            obj_type == ObjectType::UntypedObject || obj_type == ObjectType::CapTableObject
                ==> obj_size_bits <= MAX_UNTYPED_SIZE,
        ensures
            r == obj_type.spec_object_size(obj_size_bits),
    {
        match obj_type {
            ObjectType::UntypedObject => obj_size_bits,
            ObjectType::TCBObject => crate::object_type::TCB_BITS,
            ObjectType::EndpointObject => crate::object_type::ENDPOINT_BITS,
            ObjectType::NotificationObject => crate::object_type::NOTIFICATION_BITS,
            ObjectType::CapTableObject => crate::object_type::SLOT_BITS + obj_size_bits,
            _ => self.vka_arch_get_object_size(obj_type),
        }
    }

    /// The architecture-specific part of the object size catalog.
    pub fn vka_arch_get_object_size(&self, obj_type: ObjectType) -> (r: usize)
        requires
            obj_type.arch_size_known(),
        ensures
            r == obj_type.spec_object_size(0),
    {
        match obj_type {
            ObjectType::ARM_SmallPageObject => crate::object_type::PAGE_BITS,
            ObjectType::ARM_LargePageObject => crate::object_type::LARGE_PAGE_BITS,
            ObjectType::ARM_PageTableObject => crate::object_type::PAGE_TABLE_BITS,
            _ => crate::object_type::PAGE_DIR_BITS,
        }
    }

    /// The mode-specific part of the object size catalog. In this kernel
    /// configuration that catalog is empty, so no kind has a mode-specific
    /// size.
    pub fn vka_arm_mode_get_object_size(&self, obj_type: ObjectType) -> (r: Option<usize>)
        ensures
            r is None,
    {
        match obj_type {
            _ => None,
        }
    }

    /// The retype request that places one object of the given kind, retyped
    /// out of `untyped`, into `dest_slot` of the root capability table.
    pub open spec fn retype_request(
        self,
        untyped: usize,
        item_type: ObjectType,
        size_bits: usize,
        dest_slot: usize,
    ) -> KernelRequest {
        KernelRequest::Retype {
            untyped,
            obj_type: item_type.spec_value(),
            size_bits,
            root: InitCap::InitThreadCNode.spec_value(),
            node_index: self.root_cnode,
            node_depth: self.root_cnode_depth,
            node_offset: dest_slot,
            num_objects: 1,
        }
    }

    /// The untyped-selection transition made on behalf of an object of the
    /// given kind: the requested object size is looked up in the catalog
    /// first.
    pub open spec fn utspace_alloc_ok(
        pre: Allocator,
        post: Allocator,
        item_type: ObjectType,
        size_bits: usize,
        paddr: Option<usize>,
        can_use_dev: bool,
        ut: usize,
    ) -> bool {
        let us = item_type.spec_object_size(size_bits) as usize;
        match paddr {
            None => Self::untyped_alloc_ok(pre, post, us, can_use_dev, ut),
            Some(p) => Self::inventory_alloc_ok(pre, post, us, paddr, can_use_dev, ut),
        }
    }

    /// Exactly when and how the untyped selection for an object of the
    /// given kind fails.
    pub open spec fn utspace_alloc_err(
        pre: Allocator,
        item_type: ObjectType,
        size_bits: usize,
        paddr: Option<usize>,
        can_use_dev: bool,
        e: Error,
    ) -> bool {
        let us = item_type.spec_object_size(size_bits) as usize;
        match paddr {
            None => e == Error::ResourceExhausted && !pre.can_alloc_untyped(us, can_use_dev),
            Some(p) => {
                &&& !pre.has_inventory_fit_at(us, p, can_use_dev)
                &&& (e == Error::ResourceExhausted <==> pre.some_region_starts_at(p))
                &&& (e == Error::InvalidAddress <==> !pre.some_region_starts_at(p))
            },
        }
    }

    /// Selects untyped memory for one object of the given kind and builds
    /// the retype request targeting `dest`. Returns the selected untyped
    /// cookie with the request; the kernel has not been asked yet.
    fn utspace_alloc(
        &mut self,
        dest: &CSpacePath,
        item_type: ObjectType,
        size_bits: usize,
        paddr: Option<usize>,
        can_use_dev: bool,
    ) -> (r: Result<(usize, KernelRequest), Error>)
        requires
            old(self).wf(),
            item_type.size_known(),
            size_bits <= MAX_UNTYPED_SIZE,
        ensures
            final(self).wf(),
            match r {
                Ok((ut, req)) => {
                    &&& Self::utspace_alloc_ok(
                        *old(self),
                        *final(self),
                        item_type,
                        size_bits,
                        paddr,
                        can_use_dev,
                        ut,
                    )
                    &&& req == old(self).retype_request(ut, item_type, size_bits, dest.cap_ptr)
                },
                Err(e) => {
                    &&& *final(self) == *old(self)
                    &&& Self::utspace_alloc_err(
                        *old(self),
                        item_type,
                        size_bits,
                        paddr,
                        can_use_dev,
                        e,
                    )
                },
            },
    {
        let ut_size_bits = self.vka_get_object_size(item_type, size_bits);
        let untyped_memory = match self.alloc_untyped(ut_size_bits, paddr, can_use_dev) {
            Ok(c) => c,
            Err(e) => {
                return Err(e);
            },
        };
        let request = KernelRequest::Retype {
            untyped: untyped_memory,
            obj_type: item_type.value(),
            size_bits,
            root: InitCap::InitThreadCNode.value(),
            node_index: self.root_cnode,
            node_depth: self.root_cnode_depth,
            node_offset: dest.cap_ptr,
            num_objects: 1,
        };
        Ok((untyped_memory, request))
    }

    /// Like `utspace_alloc`, without an address constraint and refusing
    /// device memory.
    ///
    /// On success the returned value is the consumed source untyped
    /// capability (the allocation cookie) together with the retype request;
    /// the freshly retyped object itself comes to sit at `dest.cap_ptr`,
    /// and `vka_alloc_object` is the variant that hands back that slot.
    pub fn vka_utspace_alloc(
        &mut self,
        dest: &CSpacePath,
        item_type: ObjectType,
        size_bits: usize,
    ) -> (r: Result<(usize, KernelRequest), Error>)
        requires
            old(self).wf(),
            item_type.size_known(),
            size_bits <= MAX_UNTYPED_SIZE,
        ensures
            final(self).wf(),
            match r {
                Ok((ut, req)) => {
                    &&& Self::utspace_alloc_ok(
                        *old(self),
                        *final(self),
                        item_type,
                        size_bits,
                        None,
                        false,
                        ut,
                    )
                    &&& req == old(self).retype_request(ut, item_type, size_bits, dest.cap_ptr)
                },
                Err(e) => {
                    &&& *final(self) == *old(self)
                    &&& Self::utspace_alloc_err(*old(self), item_type, size_bits, None, false, e)
                },
            },
    {
        self.utspace_alloc(dest, item_type, size_bits, None, false)
    }

    /// Like `utspace_alloc`, constrained to an untyped region starting
    /// exactly at `paddr`.
    pub fn vka_utspace_alloc_at(
        &mut self,
        dest: &CSpacePath,
        item_type: ObjectType,
        size_bits: usize,
        paddr: usize,
        can_use_dev: bool,
    ) -> (r: Result<(usize, KernelRequest), Error>)
        requires
            old(self).wf(),
            item_type.size_known(),
            size_bits <= MAX_UNTYPED_SIZE,
        ensures
            final(self).wf(),
            match r {
                Ok((ut, req)) => {
                    &&& Self::utspace_alloc_ok(
                        *old(self),
                        *final(self),
                        item_type,
                        size_bits,
                        Some(paddr),
                        can_use_dev,
                        ut,
                    )
                    &&& req == old(self).retype_request(ut, item_type, size_bits, dest.cap_ptr)
                },
                Err(e) => {
                    &&& *final(self) == *old(self)
                    &&& Self::utspace_alloc_err(
                        *old(self),
                        item_type,
                        size_bits,
                        Some(paddr),
                        can_use_dev,
                        e,
                    )
                },
            },
    {
        self.utspace_alloc(dest, item_type, size_bits, Some(paddr), can_use_dev)
    }

    /// The combined transition of allocating one object: a slot is drawn,
    /// untyped memory is selected, and the request retypes into that slot.
    pub open spec fn object_alloc_ok(
        pre: Allocator,
        post: Allocator,
        item_type: ObjectType,
        size_bits: usize,
        paddr: Option<usize>,
        can_use_dev: bool,
        obj: VkaObject,
        req: KernelRequest,
    ) -> bool {
        let mid = pre.with_slots_used((pre.num_slots_used + 1) as usize);
        &&& pre.num_slots_used < pre.cslots.count
        &&& obj.cptr == pre.next_slot()
        &&& Self::utspace_alloc_ok(mid, post, item_type, size_bits, paddr, can_use_dev, obj.ut)
        &&& req == pre.retype_request(obj.ut, item_type, size_bits, obj.cptr)
    }

    /// Exactly when and how object allocation fails: no slot left, or no
    /// suitable untyped memory.
    pub open spec fn object_alloc_err(
        pre: Allocator,
        item_type: ObjectType,
        size_bits: usize,
        paddr: Option<usize>,
        can_use_dev: bool,
        e: Error,
    ) -> bool {
        if pre.num_slots_used == pre.cslots.count {
            e == Error::ResourceExhausted
        } else {
            Self::utspace_alloc_err(pre, item_type, size_bits, paddr, can_use_dev, e)
        }
    }

    /// Allocates one kernel object: draws a destination slot, selects
    /// untyped memory, and emits the retype request. On failure the state
    /// is unchanged (the drawn slot is returned to the pool).
    pub fn vka_alloc_object(
        &mut self,
        item_type: ObjectType,
        size_bits: usize,
        paddr: Option<usize>,
        can_use_dev: bool,
    ) -> (r: Result<(VkaObject, KernelRequest), Error>)
        requires
            old(self).wf(),
            item_type.size_known(),
            size_bits <= MAX_UNTYPED_SIZE,
        ensures
            final(self).wf(),
            match r {
                Ok((obj, req)) => Self::object_alloc_ok(
                    *old(self),
                    *final(self),
                    item_type,
                    size_bits,
                    paddr,
                    can_use_dev,
                    obj,
                    req,
                ),
                Err(e) => {
                    &&& *final(self) == *old(self)
                    &&& Self::object_alloc_err(
                        *old(self),
                        item_type,
                        size_bits,
                        paddr,
                        can_use_dev,
                        e,
                    )
                },
            },
    {
        let slot = match self.vka_cspace_alloc() {
            Ok(s) => s,
            Err(e) => {
                return Err(e);
            },
        };
        let path = self.vka_cspace_make_path(slot);
        match self.utspace_alloc(&path, item_type, size_bits, paddr, can_use_dev) {
            Ok((ut, req)) => Ok((VkaObject { cptr: slot, ut }, req)),
            Err(e) => {
                self.vka_cspace_free(slot);
                Err(e)
            },
        }
    }

    /// Allocates a fresh untyped object of the given size.
    pub fn vka_alloc_untyped(&mut self, size_bits: usize) -> (r: Result<
        (VkaObject, KernelRequest),
        Error,
    >)
        requires
            old(self).wf(),
            size_bits <= MAX_UNTYPED_SIZE,
        ensures
            final(self).wf(),
            match r {
                Ok((obj, req)) => Self::object_alloc_ok(
                    *old(self),
                    *final(self),
                    ObjectType::UntypedObject,
                    size_bits,
                    None,
                    false,
                    obj,
                    req,
                ),
                Err(e) => {
                    &&& *final(self) == *old(self)
                    &&& Self::object_alloc_err(
                        *old(self),
                        ObjectType::UntypedObject,
                        size_bits,
                        None,
                        false,
                        e,
                    )
                },
            },
    {
        self.vka_alloc_object(ObjectType::UntypedObject, size_bits, None, false)
    }

    /// Allocates a page-table object.
    pub fn vka_alloc_page_table(&mut self) -> (r: Result<(VkaObject, KernelRequest), Error>)
        requires
            old(self).wf(),
        ensures
            final(self).wf(),
            match r {
                Ok((obj, req)) => Self::object_alloc_ok(
                    *old(self),
                    *final(self),
                    ObjectType::ARM_PageTableObject,
                    0,
                    None,
                    false,
                    obj,
                    req,
                ),
                Err(e) => {
                    &&& *final(self) == *old(self)
                    &&& Self::object_alloc_err(
                        *old(self),
                        ObjectType::ARM_PageTableObject,
                        0,
                        None,
                        false,
                        e,
                    )
                },
            },
    {
        self.vka_alloc_object(ObjectType::ARM_PageTableObject, 0, None, false)
    }
}

/// Law: successive slot allocations return distinct indices, in increasing
/// order.
pub proof fn lemma_slot_allocs_increase(
    pre: Allocator,
    mid: Allocator,
    post: Allocator,
    s1: usize,
    s2: usize,
)
    requires
        Allocator::slot_alloc_ok(pre, mid, s1),
        Allocator::slot_alloc_ok(mid, post, s2),
    ensures
        s1 < s2,
{
}

/// Law: a successful slot allocation stays inside the owned range and
/// consumes exactly one free slot.
pub proof fn lemma_slot_alloc_in_range(pre: Allocator, post: Allocator, s: usize)
    requires
        pre.wf(),
        Allocator::slot_alloc_ok(pre, post, s),
    ensures
        pre.cslots.first <= s < pre.cslots.first + pre.cslots.count,
        post.slots_free() == pre.slots_free() - 1,
        post.wf(),
{
}

/// Law: a successful object allocation consumes exactly one capability
/// slot and leaves the owned slot range itself unchanged.
pub proof fn lemma_alloc_object_uses_one_slot(
    pre: Allocator,
    post: Allocator,
    item_type: ObjectType,
    size_bits: usize,
    paddr: Option<usize>,
    can_use_dev: bool,
    obj: VkaObject,
    req: KernelRequest,
)
    requires
        Allocator::object_alloc_ok(pre, post, item_type, size_bits, paddr, can_use_dev, obj, req),
    ensures
        post.num_slots_used == pre.num_slots_used + 1,
        post.slots_free() == pre.slots_free() - 1,
        post.cslots == pre.cslots,
{
}

/// Law: allocation is not idempotent. Two successive successful object
/// allocations, even with identical arguments, place their objects in
/// distinct slots.
pub proof fn lemma_alloc_object_not_idempotent(
    pre: Allocator,
    mid: Allocator,
    post: Allocator,
    item_type: ObjectType,
    size_bits: usize,
    paddr: Option<usize>,
    can_use_dev: bool,
    o1: VkaObject,
    r1: KernelRequest,
    o2: VkaObject,
    r2: KernelRequest,
)
    requires
        Allocator::object_alloc_ok(pre, mid, item_type, size_bits, paddr, can_use_dev, o1, r1),
        Allocator::object_alloc_ok(mid, post, item_type, size_bits, paddr, can_use_dev, o2, r2),
    ensures
        o1.cptr != o2.cptr,
{
    lemma_alloc_object_uses_one_slot(
        pre,
        mid,
        item_type,
        size_bits,
        paddr,
        can_use_dev,
        o1,
        r1,
    );
}

/// Law: allocation is owed success. With a free slot and a free, fitting,
/// non-refused untyped region in the inventory, no error case of the object
/// allocation contract is satisfiable, so the allocation returns a
/// capability.
pub proof fn lemma_alloc_object_succeeds(
    pre: Allocator,
    item_type: ObjectType,
    size_bits: usize,
    can_use_dev: bool,
    e: Error,
)
    requires
        pre.num_slots_used < pre.cslots.count,
        pre.has_inventory_fit(item_type.spec_object_size(size_bits) as usize, can_use_dev),
    ensures
        !Allocator::object_alloc_err(pre, item_type, size_bits, None, can_use_dev, e),
{
}

/// Law: address-targeted allocation is owed success at a region's base.
/// Given a free untyped region of size exponent `k` at base `B`, a request
/// for any untyped object of `n <= k` bits at exactly `B` cannot satisfy
/// any error case of the contract, so it returns a capability.
pub proof fn lemma_alloc_at_base_succeeds(
    pre: Allocator,
    i: int,
    n: usize,
    can_use_dev: bool,
    e: Error,
)
    requires
        0 <= i < pre.init_untyped_items.len(),
        pre.init_untyped_items[i].is_free,
        n <= pre.init_untyped_items[i].item.size_bits,
        can_use_dev || !pre.init_untyped_items[i].item.is_device,
        pre.num_slots_used < pre.cslots.count,
    ensures
        !Allocator::object_alloc_err(
            pre,
            ObjectType::UntypedObject,
            n,
            Some(pre.init_untyped_items[i].item.paddr),
            can_use_dev,
            e,
        ),
{
    assert(crate::untyped::ut_fits_at(
        pre.init_untyped_items[i],
        n,
        pre.init_untyped_items[i].item.paddr,
        can_use_dev,
    ));
    assert(pre.has_inventory_fit_at(n, pre.init_untyped_items[i].item.paddr, can_use_dev));
}

} // verus!
