//! The closed catalog of kernel object kinds and their backing sizes.
//!
//! Every kernel object is created by retyping untyped memory; the catalog
//! maps each object kind (and, for variable-sized kinds, the requested size
//! exponent) to the power-of-two exponent of the untyped region it needs.
//! The architecture-specific sizes below are those of the 32-bit ARM kernel
//! configuration.

use vstd::prelude::*;

verus! {

/// Backing size exponent of a thread control block.
pub const TCB_BITS: usize = 9;

/// Backing size exponent of an endpoint.
pub const ENDPOINT_BITS: usize = 4;

/// Backing size exponent of a notification.
pub const NOTIFICATION_BITS: usize = 4;

/// Size exponent of one capability-table slot.
pub const SLOT_BITS: usize = 4;

/// Size exponent of a small page.
pub const PAGE_BITS: usize = 12;

/// Size exponent of a large page.
pub const LARGE_PAGE_BITS: usize = 16;

/// Backing size exponent of a page table.
pub const PAGE_TABLE_BITS: usize = 10;

/// Backing size exponent of a page directory.
pub const PAGE_DIR_BITS: usize = 14;

/// The closed set of kernel object kinds this allocator can create.
#[allow(non_camel_case_types)]
#[derive(Clone, Copy, Debug, PartialEq, Eq, Structural)]
pub enum ObjectType {
    UntypedObject,
    TCBObject,
    EndpointObject,
    NotificationObject,
    CapTableObject,
    ARM_HugePageObject,
    ARM_PageUpperDirectoryObject,
    ARM_PageGlobalDirectoryObject,
    ARM_SmallPageObject,
    ARM_LargePageObject,
    ARM_PageTableObject,
    ARM_PageDirectoryObject,
}

impl ObjectType {
    /// The numeric identifier the kernel retype call uses for this kind.
    pub open spec fn spec_value(self) -> usize {
        match self {
            ObjectType::UntypedObject => 0,
            ObjectType::TCBObject => 1,
            ObjectType::EndpointObject => 2,
            ObjectType::NotificationObject => 3,
            ObjectType::CapTableObject => 4,
            ObjectType::ARM_HugePageObject => 5,
            ObjectType::ARM_PageUpperDirectoryObject => 6,
            ObjectType::ARM_PageGlobalDirectoryObject => 7,
            ObjectType::ARM_SmallPageObject => 8,
            ObjectType::ARM_LargePageObject => 9,
            ObjectType::ARM_PageTableObject => 10,
            ObjectType::ARM_PageDirectoryObject => 11,
        }
    }

    /// Returns the numeric identifier the kernel retype call uses.
    pub fn value(self) -> (r: usize)
        ensures
            r == self.spec_value(),
    {
        match self {
            ObjectType::UntypedObject => 0,
            ObjectType::TCBObject => 1,
            ObjectType::EndpointObject => 2,
            ObjectType::NotificationObject => 3,
            ObjectType::CapTableObject => 4,
            ObjectType::ARM_HugePageObject => 5,
            ObjectType::ARM_PageUpperDirectoryObject => 6,
            ObjectType::ARM_PageGlobalDirectoryObject => 7,
            ObjectType::ARM_SmallPageObject => 8,
            ObjectType::ARM_LargePageObject => 9,
            ObjectType::ARM_PageTableObject => 10,
            ObjectType::ARM_PageDirectoryObject => 11,
        }
    }

    /// True for the architecture-specific kinds whose backing size the
    /// catalog knows.
    pub open spec fn arch_size_known(self) -> bool {
        match self {
            ObjectType::ARM_SmallPageObject => true,
            ObjectType::ARM_LargePageObject => true,
            ObjectType::ARM_PageTableObject => true,
            ObjectType::ARM_PageDirectoryObject => true,
            _ => false,
        }
    }

    /// True for every kind whose backing size the catalog knows. Asking for
    /// the size of any other kind is a configuration error.
    pub open spec fn size_known(self) -> bool {
        match self {
            ObjectType::UntypedObject => true,
            ObjectType::TCBObject => true,
            ObjectType::EndpointObject => true,
            ObjectType::NotificationObject => true,
            ObjectType::CapTableObject => true,
            _ => self.arch_size_known(),
        }
    }

    /// The untyped size exponent needed to back one object of this kind.
    /// `size_bits` matters only for the variable-sized kinds.
    pub open spec fn spec_object_size(self, size_bits: usize) -> int {
        match self {
            ObjectType::UntypedObject => size_bits as int,
            ObjectType::TCBObject => TCB_BITS as int,
            ObjectType::EndpointObject => ENDPOINT_BITS as int,
            ObjectType::NotificationObject => NOTIFICATION_BITS as int,
            ObjectType::CapTableObject => SLOT_BITS + size_bits,
            ObjectType::ARM_SmallPageObject => PAGE_BITS as int,
            ObjectType::ARM_LargePageObject => LARGE_PAGE_BITS as int,
            ObjectType::ARM_PageTableObject => PAGE_TABLE_BITS as int,
            ObjectType::ARM_PageDirectoryObject => PAGE_DIR_BITS as int,
            _ => 0,
        }
    }
}

/// The frame object kind backing pages of the given size exponent, if any:
/// pages come only in the architecture's fixed sizes.
pub open spec fn spec_frame_object_type(size_bits: usize) -> Option<ObjectType> {
    if size_bits == PAGE_BITS {
        Some(ObjectType::ARM_SmallPageObject)
    } else if size_bits == LARGE_PAGE_BITS {
        Some(ObjectType::ARM_LargePageObject)
    } else {
        None
    }
}

/// Returns the frame object kind backing pages of `2^size_bits` bytes.
pub fn frame_object_type(size_bits: usize) -> (r: Option<ObjectType>)
    ensures
        r == spec_frame_object_type(size_bits),
{
    if size_bits == PAGE_BITS {
        Some(ObjectType::ARM_SmallPageObject)
    } else if size_bits == LARGE_PAGE_BITS {
        Some(ObjectType::ARM_LargePageObject)
    } else {
        None
    }
}

} // verus!
