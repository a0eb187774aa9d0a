//! The fixed, well-known capability slots every process starts with.

use vstd::prelude::*;

verus! {

/// Number of well-known initial capability slots.
pub const NUM_INITIAL_CAPS: usize = 12;

/// The closed enumeration of boot-granted capability roles, plus a
/// null/absent marker. Each names the fixed slot the kernel placed it in.
#[derive(Clone, Copy, Debug, PartialEq, Eq, Structural)]
pub enum InitCap {
    Null,
    InitThreadTCB,
    InitThreadCNode,
    InitThreadVSpace,
    IRQControl,
    ASIDControl,
    InitThreadASIDPool,
    IOPortControl,
    IOSpace,
    BootInfoFrame,
    InitThreadIPCBuffer,
    Domain,
}

impl InitCap {
    /// The fixed slot index this role occupies in a new process's
    /// capability table.
    pub open spec fn spec_value(self) -> usize {
        match self {
            InitCap::Null => 0,
            InitCap::InitThreadTCB => 1,
            InitCap::InitThreadCNode => 2,
            InitCap::InitThreadVSpace => 3,
            InitCap::IRQControl => 4,
            InitCap::ASIDControl => 5,
            InitCap::InitThreadASIDPool => 6,
            InitCap::IOPortControl => 7,
            InitCap::IOSpace => 8,
            InitCap::BootInfoFrame => 9,
            InitCap::InitThreadIPCBuffer => 10,
            InitCap::Domain => 11,
        }
    }

    /// Returns the fixed slot index for this role.
    pub fn value(self) -> (r: usize)
        ensures
            r == self.spec_value(),
            r < NUM_INITIAL_CAPS,
    {
        match self {
            InitCap::Null => 0,
            InitCap::InitThreadTCB => 1,
            InitCap::InitThreadCNode => 2,
            InitCap::InitThreadVSpace => 3,
            InitCap::IRQControl => 4,
            InitCap::ASIDControl => 5,
            InitCap::InitThreadASIDPool => 6,
            InitCap::IOPortControl => 7,
            InitCap::IOSpace => 8,
            InitCap::BootInfoFrame => 9,
            InitCap::InitThreadIPCBuffer => 10,
            InitCap::Domain => 11,
        }
    }
}

} // verus!
