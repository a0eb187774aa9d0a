//! The virtual-address-space manager: a monotonically increasing mapping
//! cursor, and the state machine that maps freshly retyped page frames at
//! consecutive addresses, creating page tables on demand.
//!
//! Mapping needs the kernel, so it runs as an explicit state machine
//! ([`PagesOp`]): each step consumes the kernel's reply to the pending
//! request and either finishes, fails, or emits the next request. The
//! protocol per page is the one the kernel demands: try the page map; if it
//! fails because no page table covers the address, create a page table, map
//! it, and retry the page map once — a second failure is final.

use crate::kcall::{KernelRequest, KCALL_OK};
use crate::object_type::{frame_object_type, spec_frame_object_type, ObjectType};
use crate::vka::VkaObject;
use crate::{Allocator, Error, MAX_UNTYPED_SIZE, PAGE_BITS_4K, PAGE_SIZE_4K};
use vstd::arithmetic::mul::lemma_mul_inequality;
use vstd::arithmetic::power2::pow2;
use vstd::prelude::*;

verus! {

/// The default cache attributes for ordinary memory: cacheable, parity
/// enabled.
pub const DEFAULT_VM_ATTRIBUTES: usize = 3;

/// The alignment the architecture requires of a stack pointer.
pub const STACK_ALIGN: usize = 8;

/// Which kernel reply a mapping operation is waiting for.
#[derive(Clone, Copy, Debug, PartialEq, Eq, Structural)]
pub enum PagesPhase {
    /// Awaiting the retype reply for the current page's frame.
    FrameRetype,
    /// Awaiting the map reply for the current frame.
    MapFrame,
    /// Awaiting the retype reply for the on-demand page table.
    PtRetype,
    /// Awaiting the map reply for the on-demand page table.
    PtMap,
    /// Awaiting the retried map reply for the current frame.
    MapRetry,
    /// All pages mapped; the cursor has advanced.
    Done,
    /// The operation failed; the allocator keeps whatever the kernel already
    /// consumed (retypes are irreversible).
    Failed,
}

/// An in-flight mapping of `num_pages` frames of `2^size_bits` bytes each at
/// consecutive virtual addresses starting at `base_vaddr`.
#[derive(Clone, Copy, Debug)]
pub struct PagesOp {
    pub num_pages: usize,
    pub size_bits: usize,
    pub attrs: usize,
    pub base_vaddr: usize,
    /// Pages fully mapped so far.
    pub page_index: usize,
    /// The frame capability of the first page.
    pub first_cap: usize,
    /// The frame currently being retyped or mapped.
    pub cur_obj: VkaObject,
    /// The page table created by the fallback path, if any.
    pub pt_obj: VkaObject,
    pub phase: PagesPhase,
    /// The request the kernel must answer next, if the operation is still
    /// running.
    pub pending: Option<KernelRequest>,
}

impl PagesOp {
    /// The virtual address of page `i` of this operation.
    pub open spec fn page_vaddr(self, i: int) -> int {
        self.base_vaddr + i * pow2(self.size_bits as nat)
    }

    /// True while the operation still expects kernel replies.
    pub open spec fn in_progress(self) -> bool {
        !(self.phase is Done) && !(self.phase is Failed)
    }

    /// The operation's invariant, relative to the allocator it runs
    /// against.
    pub open spec fn wf(self, a: Allocator) -> bool {
        &&& PAGE_BITS_4K <= self.size_bits <= MAX_UNTYPED_SIZE
        &&& self.size_bits < usize::BITS
        &&& self.base_vaddr + self.num_pages * pow2(self.size_bits as nat) <= usize::MAX
        &&& self.base_vaddr as int % PAGE_SIZE_4K as int == 0
        &&& if self.in_progress() {
            &&& spec_frame_object_type(self.size_bits) is Some
            &&& a.last_allocated == self.base_vaddr
            &&& self.page_index < self.num_pages
            &&& match self.pending {
                Some(req) => match req {
                    KernelRequest::MapPage { frame, root, vaddr, attrs } => {
                        &&& self.phase is MapFrame || self.phase is MapRetry
                        &&& frame == self.cur_obj.cptr
                        &&& vaddr == self.page_vaddr(self.page_index as int)
                        &&& attrs == self.attrs
                    },
                    KernelRequest::MapPageTable { table, root, vaddr, attrs } => {
                        &&& self.phase is PtMap
                        &&& table == self.pt_obj.cptr
                        &&& vaddr == self.page_vaddr(self.page_index as int)
                        &&& attrs == self.attrs
                    },
                    KernelRequest::Retype { .. } => self.phase is FrameRetype || self.phase
                        is PtRetype,
                    _ => false,
                },
                None => false,
            }
        } else {
            self.pending is None
        }
        &&& (self.phase is Done ==> self.page_index == self.num_pages)
    }

    /// Returns the pending kernel request, if the operation is running.
    pub fn pending(&self) -> (r: Option<KernelRequest>)
        ensures
            r == self.pending,
    {
        self.pending
    }

    /// True once every page is mapped.
    pub fn is_done(&self) -> (r: bool)
        ensures
            r == (self.phase is Done),
    {
        matches!(self.phase, PagesPhase::Done)
    }

    /// The base of the mapped region; meaningful once the operation is
    /// done.
    pub fn result_vaddr(&self) -> (r: usize)
        ensures
            r == self.base_vaddr,
    {
        self.base_vaddr
    }

    /// The frame capability of the first mapped page; meaningful once the
    /// operation is done and at least one page was requested.
    pub fn result_first_cap(&self) -> (r: usize)
        ensures
            r == self.first_cap,
    {
        self.first_cap
    }
}

/// `n * 2^e` is page-aligned whenever `e` is at least the page exponent.
proof fn lemma_mul_pow2_page_aligned(n: int, e: nat)
    requires
        e >= 12,
        n >= 0,
    ensures
        (n * pow2(e)) % (PAGE_SIZE_4K as int) == 0,
{
    vstd::arithmetic::power2::lemma_pow2_adds((e - 12) as nat, 12);
    vstd::arithmetic::power2::lemma2_to64();
    assert(pow2(e) == pow2((e - 12) as nat) * 4096);
    vstd::arithmetic::mul::lemma_mul_is_associative(n, pow2((e - 12) as nat) as int, 4096);
    vstd::arithmetic::div_mod::lemma_mod_multiples_basic(n * pow2((e - 12) as nat) as int, 4096);
}

/// The sum of two page-aligned values is page-aligned.
proof fn lemma_aligned_sum(a: int, b: int)
    requires
        a % (PAGE_SIZE_4K as int) == 0,
        b % (PAGE_SIZE_4K as int) == 0,
        a >= 0,
        b >= 0,
    ensures
        (a + b) % (PAGE_SIZE_4K as int) == 0,
{
    vstd::arithmetic::div_mod::lemma_add_mod_noop(a, b, PAGE_SIZE_4K as int);
}

impl Allocator {
    /// What one step of a mapping operation does, as a relation between the
    /// states before and after, the kernel's reply, and the step's result.
    pub open spec fn pages_step_spec(
        pre_a: Allocator,
        post_a: Allocator,
        pre: PagesOp,
        post: PagesOp,
        reply: usize,
        r: Result<(), Error>,
    ) -> bool {
        match pre.phase {
            PagesPhase::FrameRetype => if reply != KCALL_OK {
                &&& r == Err::<(), Error>(Error::ResourceExhausted)
                &&& post_a == pre_a
                &&& post == (PagesOp { phase: PagesPhase::Failed, pending: None, ..pre })
            } else {
                &&& r == Ok::<(), Error>(())
                &&& post_a == pre_a
                &&& post == (PagesOp {
                    phase: PagesPhase::MapFrame,
                    pending: Some(
                        KernelRequest::MapPage {
                            frame: pre.cur_obj.cptr,
                            root: pre_a.page_directory,
                            vaddr: pre.page_vaddr(pre.page_index as int) as usize,
                            attrs: pre.attrs,
                        },
                    ),
                    first_cap: if pre.page_index == 0 {
                        pre.cur_obj.cptr
                    } else {
                        pre.first_cap
                    },
                    ..pre
                })
            },
            PagesPhase::MapFrame => if reply == KCALL_OK {
                Self::pages_advance(pre_a, post_a, pre, post, r)
            } else {
                Self::pages_fallback(pre_a, post_a, pre, post, r)
            },
            PagesPhase::PtRetype => if reply != KCALL_OK {
                &&& r == Err::<(), Error>(Error::ResourceExhausted)
                &&& post_a == pre_a
                &&& post == (PagesOp { phase: PagesPhase::Failed, pending: None, ..pre })
            } else {
                &&& r == Ok::<(), Error>(())
                &&& post_a == pre_a
                &&& post == (PagesOp {
                    phase: PagesPhase::PtMap,
                    pending: Some(
                        KernelRequest::MapPageTable {
                            table: pre.pt_obj.cptr,
                            root: pre_a.page_directory,
                            vaddr: pre.page_vaddr(pre.page_index as int) as usize,
                            attrs: pre.attrs,
                        },
                    ),
                    ..pre
                })
            },
            PagesPhase::PtMap => if reply != KCALL_OK {
                &&& r == Err::<(), Error>(Error::Other)
                &&& post_a == pre_a
                &&& post == (PagesOp { phase: PagesPhase::Failed, pending: None, ..pre })
            } else {
                &&& r == Ok::<(), Error>(())
                &&& post_a == pre_a
                &&& post == (PagesOp {
                    phase: PagesPhase::MapRetry,
                    pending: Some(
                        KernelRequest::MapPage {
                            frame: pre.cur_obj.cptr,
                            root: pre_a.page_directory,
                            vaddr: pre.page_vaddr(pre.page_index as int) as usize,
                            attrs: pre.attrs,
                        },
                    ),
                    ..pre
                })
            },
            PagesPhase::MapRetry => if reply == KCALL_OK {
                Self::pages_advance(pre_a, post_a, pre, post, r)
            } else {
                &&& r == Err::<(), Error>(Error::Other)
                &&& post_a == pre_a
                &&& post == (PagesOp { phase: PagesPhase::Failed, pending: None, ..pre })
            },
            PagesPhase::Done => false,
            PagesPhase::Failed => false,
        }
    }

    /// The transition after a page was mapped: either the whole operation
    /// completes and the cursor advances past the reserved range, or the
    /// next page's frame is allocated and its retype request is emitted.
    pub open spec fn pages_advance(
        pre_a: Allocator,
        post_a: Allocator,
        pre: PagesOp,
        post: PagesOp,
        r: Result<(), Error>,
    ) -> bool {
        if pre.page_index + 1 == pre.num_pages {
            &&& r == Ok::<(), Error>(())
            &&& post_a == (Allocator {
                last_allocated: (pre.base_vaddr + pre.num_pages * pow2(
                    pre.size_bits as nat,
                )) as usize,
                ..pre_a
            })
            &&& post == (PagesOp {
                phase: PagesPhase::Done,
                pending: None,
                page_index: pre.num_pages,
                ..pre
            })
        } else {
            match r {
                Ok(()) => {
                    &&& post.pending is Some
                    &&& Self::object_alloc_ok(
                        pre_a,
                        post_a,
                        spec_frame_object_type(pre.size_bits).unwrap(),
                        pre.size_bits,
                        None,
                        false,
                        post.cur_obj,
                        post.pending.unwrap(),
                    )
                    &&& post == (PagesOp {
                        phase: PagesPhase::FrameRetype,
                        pending: post.pending,
                        cur_obj: post.cur_obj,
                        page_index: (pre.page_index + 1) as usize,
                        ..pre
                    })
                },
                Err(e) => {
                    &&& post_a == pre_a
                    &&& Self::object_alloc_err(
                        pre_a,
                        spec_frame_object_type(pre.size_bits).unwrap(),
                        pre.size_bits,
                        None,
                        false,
                        e,
                    )
                    &&& post == (PagesOp { phase: PagesPhase::Failed, pending: None, ..pre })
                },
            }
        }
    }

    /// The transition after a page map failed: a page table is allocated
    /// (and remembered as the most recent one), and its retype request is
    /// emitted.
    pub open spec fn pages_fallback(
        pre_a: Allocator,
        post_a: Allocator,
        pre: PagesOp,
        post: PagesOp,
        r: Result<(), Error>,
    ) -> bool {
        match r {
            Ok(()) => {
                &&& post.pending is Some
                &&& post_a.page_table == post.pt_obj.cptr
                &&& Self::object_alloc_ok(
                    pre_a,
                    (Allocator { page_table: pre_a.page_table, ..post_a }),
                    ObjectType::ARM_PageTableObject,
                    0,
                    None,
                    false,
                    post.pt_obj,
                    post.pending.unwrap(),
                )
                &&& post == (PagesOp {
                    phase: PagesPhase::PtRetype,
                    pending: post.pending,
                    pt_obj: post.pt_obj,
                    ..pre
                })
            },
            Err(e) => {
                &&& post_a == pre_a
                &&& Self::object_alloc_err(
                    pre_a,
                    ObjectType::ARM_PageTableObject,
                    0,
                    None,
                    false,
                    e,
                )
                &&& post == (PagesOp { phase: PagesPhase::Failed, pending: None, ..pre })
            },
        }
    }

    /// Starts mapping `num_pages` frames of `2^size_bits` bytes at the
    /// cursor, the first frame backed by untyped memory starting exactly at
    /// `paddr` if one is given. Allocates the first frame and emits its
    /// retype request; on failure the allocator is unchanged.
    pub fn vspace_new_pages_at(
        &mut self,
        paddr: Option<usize>,
        num_pages: usize,
        size_bits: usize,
        attrs: usize,
        can_use_dev: bool,
    ) -> (r: Result<PagesOp, Error>)
        requires
            old(self).wf(),
            PAGE_BITS_4K <= size_bits <= MAX_UNTYPED_SIZE,
            size_bits < usize::BITS,
            old(self).last_allocated + num_pages * pow2(size_bits as nat) <= usize::MAX,
        ensures
            final(self).wf(),
            match r {
                Ok(op) => {
                    &&& op.wf(*final(self))
                    &&& op.base_vaddr == old(self).last_allocated
                    &&& op.num_pages == num_pages
                    &&& op.size_bits == size_bits
                    &&& op.attrs == attrs
                    &&& op.page_index == 0
                    &&& if num_pages == 0 {
                        &&& op.phase is Done
                        &&& *final(self) == *old(self)
                    } else {
                        &&& op.phase is FrameRetype
                        &&& op.pending is Some
                        &&& Self::object_alloc_ok(
                            *old(self),
                            *final(self),
                            spec_frame_object_type(size_bits).unwrap(),
                            size_bits,
                            paddr,
                            can_use_dev,
                            op.cur_obj,
                            op.pending.unwrap(),
                        )
                    }
                },
                Err(e) => {
                    &&& *final(self) == *old(self)
                    &&& num_pages > 0
                    &&& if spec_frame_object_type(size_bits) is None {
                        e == Error::Other
                    } else {
                        Self::object_alloc_err(
                            *old(self),
                            spec_frame_object_type(size_bits).unwrap(),
                            size_bits,
                            paddr,
                            can_use_dev,
                            e,
                        )
                    }
                },
            },
    {
        let base_vaddr = self.last_allocated;
        if num_pages == 0 {
            return Ok(
                PagesOp {
                    num_pages,
                    size_bits,
                    attrs,
                    base_vaddr,
                    page_index: 0,
                    first_cap: 0,
                    cur_obj: VkaObject { cptr: 0, ut: 0 },
                    pt_obj: VkaObject { cptr: 0, ut: 0 },
                    phase: PagesPhase::Done,
                    pending: None,
                },
            );
        }
        let ft = match frame_object_type(size_bits) {
            Some(t) => t,
            None => {
                return Err(Error::Other);
            },
        };
        match self.vka_alloc_object(ft, size_bits, paddr, can_use_dev) {
            Ok((obj, req)) => Ok(
                PagesOp {
                    num_pages,
                    size_bits,
                    attrs,
                    base_vaddr,
                    page_index: 0,
                    first_cap: 0,
                    cur_obj: obj,
                    pt_obj: VkaObject { cptr: 0, ut: 0 },
                    phase: PagesPhase::FrameRetype,
                    pending: Some(req),
                },
            ),
            Err(e) => Err(e),
        }
    }

    /// Starts mapping `num_pages` frames at the cursor with no address
    /// constraint.
    pub fn vspace_new_pages(&mut self, num_pages: usize, size_bits: usize, attrs: usize) -> (r:
        Result<PagesOp, Error>)
        requires
            old(self).wf(),
            PAGE_BITS_4K <= size_bits <= MAX_UNTYPED_SIZE,
            size_bits < usize::BITS,
            old(self).last_allocated + num_pages * pow2(size_bits as nat) <= usize::MAX,
        ensures
            final(self).wf(),
            match r {
                Ok(op) => {
                    &&& op.wf(*final(self))
                    &&& op.base_vaddr == old(self).last_allocated
                    &&& op.num_pages == num_pages
                    &&& op.size_bits == size_bits
                    &&& op.attrs == attrs
                    &&& op.page_index == 0
                    &&& if num_pages == 0 {
                        &&& op.phase is Done
                        &&& *final(self) == *old(self)
                    } else {
                        &&& op.phase is FrameRetype
                        &&& op.pending is Some
                        &&& Self::object_alloc_ok(
                            *old(self),
                            *final(self),
                            spec_frame_object_type(size_bits).unwrap(),
                            size_bits,
                            None,
                            false,
                            op.cur_obj,
                            op.pending.unwrap(),
                        )
                    }
                },
                Err(e) => {
                    &&& *final(self) == *old(self)
                    &&& num_pages > 0
                    &&& if spec_frame_object_type(size_bits) is None {
                        e == Error::Other
                    } else {
                        Self::object_alloc_err(
                            *old(self),
                            spec_frame_object_type(size_bits).unwrap(),
                            size_bits,
                            None,
                            false,
                            e,
                        )
                    }
                },
            },
    {
        self.vspace_new_pages_at(None, num_pages, size_bits, attrs, false)
    }

    /// Advances one in-flight mapping operation by one kernel reply.
    pub fn vspace_pages_step(&mut self, op: &mut PagesOp, reply: usize) -> (r: Result<(), Error>)
        requires
            old(self).wf(),
            old(op).wf(*old(self)),
            old(op).in_progress(),
        ensures
            final(self).wf(),
            final(op).wf(*final(self)),
            Self::pages_step_spec(*old(self), *final(self), *old(op), *final(op), reply, r),
    {
        proof {
            vstd::arithmetic::power2::lemma_pow2_pos(op.size_bits as nat);
            lemma_mul_inequality(1, op.num_pages as int, pow2(op.size_bits as nat) as int);
            lemma_mul_inequality(
                op.page_index as int,
                op.num_pages as int,
                pow2(op.size_bits as nat) as int,
            );
        }
        let page_size = crate::pow2_usize(op.size_bits);
        let cur_vaddr: usize = op.base_vaddr + op.page_index * page_size;
        match op.phase {
            PagesPhase::FrameRetype => {
                if reply != KCALL_OK {
                    op.phase = PagesPhase::Failed;
                    op.pending = None;
                    Err(Error::ResourceExhausted)
                } else {
                    if op.page_index == 0 {
                        op.first_cap = op.cur_obj.cptr;
                    }
                    op.phase = PagesPhase::MapFrame;
                    op.pending = Some(
                        KernelRequest::MapPage {
                            frame: op.cur_obj.cptr,
                            root: self.page_directory,
                            vaddr: cur_vaddr,
                            attrs: op.attrs,
                        },
                    );
                    Ok(())
                }
            },
            PagesPhase::MapFrame => {
                if reply == KCALL_OK {
                    self.pages_finish_page(op)
                } else {
                    self.pages_start_fallback(op)
                }
            },
            PagesPhase::PtRetype => {
                if reply != KCALL_OK {
                    op.phase = PagesPhase::Failed;
                    op.pending = None;
                    Err(Error::ResourceExhausted)
                } else {
                    op.phase = PagesPhase::PtMap;
                    op.pending = Some(
                        KernelRequest::MapPageTable {
                            table: op.pt_obj.cptr,
                            root: self.page_directory,
                            vaddr: cur_vaddr,
                            attrs: op.attrs,
                        },
                    );
                    Ok(())
                }
            },
            PagesPhase::PtMap => {
                if reply != KCALL_OK {
                    op.phase = PagesPhase::Failed;
                    op.pending = None;
                    Err(Error::Other)
                } else {
                    op.phase = PagesPhase::MapRetry;
                    op.pending = Some(
                        KernelRequest::MapPage {
                            frame: op.cur_obj.cptr,
                            root: self.page_directory,
                            vaddr: cur_vaddr,
                            attrs: op.attrs,
                        },
                    );
                    Ok(())
                }
            },
            PagesPhase::MapRetry => {
                if reply == KCALL_OK {
                    self.pages_finish_page(op)
                } else {
                    op.phase = PagesPhase::Failed;
                    op.pending = None;
                    Err(Error::Other)
                }
            },
            PagesPhase::Done => Err(Error::Other),
            PagesPhase::Failed => Err(Error::Other),
        }
    }

    /// One page is mapped: complete the operation or move to the next page.
    fn pages_finish_page(&mut self, op: &mut PagesOp) -> (r: Result<(), Error>)
        requires
            old(self).wf(),
            old(op).wf(*old(self)),
            old(op).in_progress(),
        ensures
            final(self).wf(),
            final(op).wf(*final(self)),
            Self::pages_advance(*old(self), *final(self), *old(op), *final(op), r),
    {
        proof {
            vstd::arithmetic::power2::lemma_pow2_pos(op.size_bits as nat);
            lemma_mul_inequality(1, op.num_pages as int, pow2(op.size_bits as nat) as int);
        }
        if op.page_index + 1 == op.num_pages {
            let page_size = crate::pow2_usize(op.size_bits);
            proof {
                lemma_mul_pow2_page_aligned(op.num_pages as int, op.size_bits as nat);
                lemma_aligned_sum(
                    op.base_vaddr as int,
                    op.num_pages as int * pow2(op.size_bits as nat) as int,
                );
            }
            self.last_allocated = op.base_vaddr + op.num_pages * page_size;
            op.page_index = op.num_pages;
            op.phase = PagesPhase::Done;
            op.pending = None;
            Ok(())
        } else {
            let ft = frame_object_type(op.size_bits).unwrap();
            match self.vka_alloc_object(ft, op.size_bits, None, false) {
                Ok((obj, req)) => {
                    op.page_index = op.page_index + 1;
                    op.cur_obj = obj;
                    op.phase = PagesPhase::FrameRetype;
                    op.pending = Some(req);
                    Ok(())
                },
                Err(e) => {
                    op.phase = PagesPhase::Failed;
                    op.pending = None;
                    Err(e)
                },
            }
        }
    }

    /// A page map failed: allocate a page table on demand, remember it, and
    /// emit its retype request.
    fn pages_start_fallback(&mut self, op: &mut PagesOp) -> (r: Result<(), Error>)
        requires
            old(self).wf(),
            old(op).wf(*old(self)),
            old(op).in_progress(),
        ensures
            final(self).wf(),
            final(op).wf(*final(self)),
            Self::pages_fallback(*old(self), *final(self), *old(op), *final(op), r),
    {
        match self.vka_alloc_page_table() {
            Ok((obj, req)) => {
                self.page_table = obj.cptr;
                op.pt_obj = obj;
                op.phase = PagesPhase::PtRetype;
                op.pending = Some(req);
                Ok(())
            },
            Err(e) => {
                op.phase = PagesPhase::Failed;
                op.pending = None;
                Err(e)
            },
        }
    }

    /// Reserves `n_pages + 1` pages of address space for a stack: one guard
    /// page at the bottom, which is never mapped, then `n_pages` mapped
    /// pages. Returns the mapping operation and the stack-top address, which
    /// is aligned as the architecture requires. A stack must be at least one
    /// page.
    pub fn vspace_new_sized_stack(&mut self, n_pages: usize) -> (r: Result<
        (PagesOp, usize),
        Error,
    >)
        requires
            old(self).wf(),
            n_pages >= 1,
            old(self).last_allocated + (n_pages + 1) * PAGE_SIZE_4K <= usize::MAX,
        ensures
            final(self).wf(),
            match r {
                Ok((op, top)) => {
                    &&& op.wf(*final(self))
                    &&& top == old(self).last_allocated + (n_pages + 1) * PAGE_SIZE_4K
                    &&& top as int % STACK_ALIGN as int == 0
                    &&& op.base_vaddr == old(self).last_allocated + PAGE_SIZE_4K
                    &&& op.num_pages == n_pages
                    &&& op.size_bits == PAGE_BITS_4K
                    &&& op.attrs == DEFAULT_VM_ATTRIBUTES
                    &&& op.page_index == 0
                    &&& op.phase is FrameRetype
                    &&& op.pending is Some
                    &&& Self::object_alloc_ok(
                        (Allocator {
                            last_allocated: (old(self).last_allocated + PAGE_SIZE_4K) as usize,
                            ..*old(self)
                        }),
                        *final(self),
                        ObjectType::ARM_SmallPageObject,
                        PAGE_BITS_4K,
                        None,
                        false,
                        op.cur_obj,
                        op.pending.unwrap(),
                    )
                },
                Err(e) => {
                    &&& *final(self) == *old(self)
                    &&& Self::object_alloc_err(
                        *old(self),
                        ObjectType::ARM_SmallPageObject,
                        PAGE_BITS_4K,
                        None,
                        false,
                        e,
                    )
                },
            },
    {
        proof {
            vstd::arithmetic::power2::lemma2_to64();
            lemma_aligned_sum(old(self).last_allocated as int, PAGE_SIZE_4K as int);
        }
        let base = self.last_allocated;
        self.last_allocated = self.last_allocated + PAGE_SIZE_4K;
        match self.vspace_new_pages(n_pages, PAGE_BITS_4K, DEFAULT_VM_ATTRIBUTES) {
            Ok(op) => {
                let top: usize = op.result_vaddr() + n_pages * PAGE_SIZE_4K;
                proof {
                    vstd::arithmetic::div_mod::lemma_fundamental_div_mod(top as int, 4096);
                    let q = top as int / 4096;
                    lemma_mul_pow2_page_aligned(n_pages as int, 12);
                    lemma_aligned_sum(op.base_vaddr as int, n_pages as int * 4096);
                    assert(top == 8 * (512 * q));
                    vstd::arithmetic::div_mod::lemma_mod_multiples_basic(512 * q, 8);
                }
                Ok((op, top))
            },
            Err(e) => {
                self.last_allocated = self.last_allocated - PAGE_SIZE_4K;
                proof {
                    assert(*self == *old(self));
                }
                Err(e)
            },
        }
    }

    /// Starts mapping the single page that will hold a thread's IPC buffer.
    /// The kernel's IPC-buffer discovery protocol additionally requires the
    /// buffer's own virtual address to be written into it once mapped; that
    /// write is the driver's task.
    pub fn vspace_new_ipc_buffer(&mut self) -> (r: Result<PagesOp, Error>)
        requires
            old(self).wf(),
            old(self).last_allocated + PAGE_SIZE_4K <= usize::MAX,
        ensures
            final(self).wf(),
            match r {
                Ok(op) => {
                    &&& op.wf(*final(self))
                    &&& op.base_vaddr == old(self).last_allocated
                    &&& op.num_pages == 1
                    &&& op.size_bits == PAGE_BITS_4K
                    &&& op.page_index == 0
                    &&& op.phase is FrameRetype
                    &&& op.pending is Some
                    &&& Self::object_alloc_ok(
                        *old(self),
                        *final(self),
                        ObjectType::ARM_SmallPageObject,
                        PAGE_BITS_4K,
                        None,
                        false,
                        op.cur_obj,
                        op.pending.unwrap(),
                    )
                },
                Err(e) => {
                    &&& *final(self) == *old(self)
                    &&& Self::object_alloc_err(
                        *old(self),
                        ObjectType::ARM_SmallPageObject,
                        PAGE_BITS_4K,
                        None,
                        false,
                        e,
                    )
                },
            },
    {
        proof {
            vstd::arithmetic::power2::lemma2_to64();
        }
        self.vspace_new_pages(1, PAGE_BITS_4K, DEFAULT_VM_ATTRIBUTES)
    }
}

/// Law: while a mapping operation runs, every page-map request it emits
/// targets an address inside the operation's reserved range. In particular
/// an address below `base_vaddr` (such as a stack's guard page) is never
/// mapped.
pub proof fn lemma_pages_op_maps_in_range(
    op: PagesOp,
    a: Allocator,
    frame: usize,
    root: usize,
    vaddr: usize,
    attrs: usize,
)
    requires
        op.wf(a),
        op.pending == Some(KernelRequest::MapPage { frame, root, vaddr, attrs }),
    ensures
        op.base_vaddr <= vaddr,
        (vaddr as int) < op.base_vaddr + op.num_pages * pow2(op.size_bits as nat),
        op.num_pages > 0,
{
    vstd::arithmetic::power2::lemma_pow2_pos(op.size_bits as nat);
    vstd::arithmetic::mul::lemma_mul_nonnegative(
        op.page_index as int,
        pow2(op.size_bits as nat) as int,
    );
    vstd::arithmetic::mul::lemma_mul_strict_inequality(
        op.page_index as int,
        op.num_pages as int,
        pow2(op.size_bits as nat) as int,
    );
}

} // verus!
