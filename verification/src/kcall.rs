//! The kernel capability-invocation interface, as data.
//!
//! The allocator never invokes the kernel itself. Every operation that needs
//! the kernel emits a [`KernelRequest`] describing exactly one capability
//! invocation; an unverified driver performs it and feeds the kernel's
//! answer back as a [`KernelReply`]. A reply code of `KCALL_OK` means the
//! invocation succeeded.

use crate::pmem::DMACacheOp;
use vstd::prelude::*;

verus! {

/// The kernel reply code that signals success.
pub const KCALL_OK: usize = 0;

/// One kernel capability invocation, with all of its arguments.
#[derive(Clone, Copy, Debug, PartialEq, Eq, Structural)]
pub enum KernelRequest {
    /// Retype `num_objects` objects of kind `obj_type` (and, for
    /// variable-sized kinds, size `2^size_bits`) out of the untyped
    /// capability `untyped`, placing the new capabilities at
    /// `node_offset` in the capability table addressed by
    /// `root`/`node_index`/`node_depth`.
    Retype {
        untyped: usize,
        obj_type: usize,
        size_bits: usize,
        root: usize,
        node_index: usize,
        node_depth: usize,
        node_offset: usize,
        num_objects: usize,
    },
    /// Map the page frame `frame` at virtual address `vaddr` in the address
    /// space rooted at `root`, with the given cache attributes.
    MapPage { frame: usize, root: usize, vaddr: usize, attrs: usize },
    /// Map the page table `table` so that it covers `vaddr` in the address
    /// space rooted at `root`.
    MapPageTable { table: usize, root: usize, vaddr: usize, attrs: usize },
    /// Ask the kernel for the physical address backing the frame `frame`.
    GetPageAddr { frame: usize },
    /// Perform the cache-maintenance operation `op` on the virtual range
    /// `[start, end)` of the address space rooted at `root`.
    CacheRange { root: usize, start: usize, end: usize, op: DMACacheOp },
}

/// The kernel's answer to one request: a bare result code, or a result code
/// with the physical address a `GetPageAddr` request asked for.
#[derive(Clone, Copy, Debug, PartialEq, Eq, Structural)]
pub enum KernelReply {
    Code(usize),
    Addr { code: usize, paddr: usize },
}

impl KernelReply {
    /// The reply's result code, whichever form it takes.
    pub open spec fn spec_code(self) -> usize {
        match self {
            KernelReply::Code(c) => c,
            KernelReply::Addr { code, .. } => code,
        }
    }

    /// Returns the reply's result code.
    pub fn code(self) -> (r: usize)
        ensures
            r == self.spec_code(),
    {
        match self {
            KernelReply::Code(c) => c,
            KernelReply::Addr { code, .. } => code,
        }
    }
}

} // verus!
