use sel4_alloc::init_cap::{InitCap, NUM_INITIAL_CAPS};
use sel4_alloc::kcall::KernelRequest;
use sel4_alloc::object_type::ObjectType;
use sel4_alloc::vka::{retype_outcome, CSPACE_DEPTH};
use sel4_alloc::{Allocator, CapRange, Error, UntypedItem, MAX_UNTYPED_ITEMS};

fn fresh() -> Allocator {
    Allocator::new(2, 32, 0, CapRange { first: 100, count: 50 })
}

#[test]
fn slot_allocation_distinct_increasing_until_exhausted() {
    let mut a = Allocator::new(2, 32, 0, CapRange { first: 10, count: 3 });
    assert_eq!(a.vka_cspace_alloc(), Ok(10));
    assert_eq!(a.vka_cspace_alloc(), Ok(11));
    assert_eq!(a.vka_cspace_alloc(), Ok(12));
    assert_eq!(a.vka_cspace_alloc(), Err(Error::ResourceExhausted));
    assert_eq!(a.vka_cspace_alloc(), Err(Error::ResourceExhausted));
}

#[test]
fn slot_free_returns_only_most_recent() {
    let mut a = Allocator::new(2, 32, 0, CapRange { first: 10, count: 3 });
    let s1 = a.vka_cspace_alloc().unwrap();
    let s2 = a.vka_cspace_alloc().unwrap();
    a.vka_cspace_free(s1);
    assert_eq!(a.num_slots_used, 2);
    a.vka_cspace_free(s2);
    assert_eq!(a.num_slots_used, 1);
    assert_eq!(a.vka_cspace_alloc(), Ok(s2));
}

#[test]
fn make_path_names_the_slot_in_the_root_table() {
    let a = Allocator::new(7, 32, 0, CapRange { first: 10, count: 3 });
    let p = a.vka_cspace_make_path(11);
    assert_eq!(p.cap_ptr, 11);
    assert_eq!(p.cap_depth, CSPACE_DEPTH);
    assert_eq!(p.root, 7);
    assert_eq!(p.dest, 7);
    assert_eq!(p.dest_depth, 32);
    assert_eq!(p.offset, 11);
    assert_eq!(p.window, 1);
}

#[test]
fn object_sizes_follow_the_catalog() {
    let a = fresh();
    assert_eq!(a.vka_get_object_size(ObjectType::UntypedObject, 5), 5);
    assert_eq!(a.vka_get_object_size(ObjectType::TCBObject, 0), 9);
    assert_eq!(a.vka_get_object_size(ObjectType::EndpointObject, 0), 4);
    assert_eq!(a.vka_get_object_size(ObjectType::NotificationObject, 0), 4);
    assert_eq!(a.vka_get_object_size(ObjectType::CapTableObject, 2), 6);
    assert_eq!(a.vka_get_object_size(ObjectType::ARM_SmallPageObject, 0), 12);
    assert_eq!(a.vka_get_object_size(ObjectType::ARM_LargePageObject, 0), 16);
    assert_eq!(a.vka_get_object_size(ObjectType::ARM_PageTableObject, 0), 10);
    assert_eq!(a.vka_get_object_size(ObjectType::ARM_PageDirectoryObject, 0), 14);
    assert_eq!(a.vka_arch_get_object_size(ObjectType::ARM_SmallPageObject), 12);
    assert_eq!(a.vka_arm_mode_get_object_size(ObjectType::TCBObject), None);
}

#[test]
fn init_cap_values_are_the_fixed_slots() {
    assert_eq!(InitCap::Null.value(), 0);
    assert_eq!(InitCap::InitThreadTCB.value(), 1);
    assert_eq!(InitCap::InitThreadCNode.value(), 2);
    assert_eq!(InitCap::InitThreadVSpace.value(), 3);
    assert_eq!(InitCap::IRQControl.value(), 4);
    assert_eq!(InitCap::ASIDControl.value(), 5);
    assert_eq!(InitCap::InitThreadASIDPool.value(), 6);
    assert_eq!(InitCap::IOPortControl.value(), 7);
    assert_eq!(InitCap::IOSpace.value(), 8);
    assert_eq!(InitCap::BootInfoFrame.value(), 9);
    assert_eq!(InitCap::InitThreadIPCBuffer.value(), 10);
    assert_eq!(InitCap::Domain.value(), 11);
    assert_eq!(NUM_INITIAL_CAPS, 12);
}

#[test]
fn object_type_values_match_the_kernel_identifiers() {
    assert_eq!(ObjectType::UntypedObject.value(), 0);
    assert_eq!(ObjectType::TCBObject.value(), 1);
    assert_eq!(ObjectType::CapTableObject.value(), 4);
    assert_eq!(ObjectType::ARM_SmallPageObject.value(), 8);
    assert_eq!(ObjectType::ARM_PageDirectoryObject.value(), 11);
}

#[test]
fn allocate_object_emits_retype_and_consumes_one_slot() {
    let mut a = fresh();
    a.add_initial_untyped(UntypedItem::new(77, 16, 0x1000_0000, false))
        .unwrap();
    let (obj, req) = a
        .vka_alloc_object(ObjectType::ARM_SmallPageObject, 12, None, false)
        .unwrap();
    assert_eq!(obj.cptr, 100);
    assert_eq!(obj.ut, 77);
    assert_eq!(a.num_slots_used, 1);
    assert_eq!(
        req,
        KernelRequest::Retype {
            untyped: 77,
            obj_type: 8,
            size_bits: 12,
            root: 2,
            node_index: 2,
            node_depth: 32,
            node_offset: 100,
            num_objects: 1,
        }
    );
    assert!(!a.init_untyped_items[0].is_free);
}

#[test]
fn allocate_twice_never_returns_the_same_slot() {
    let mut a = fresh();
    a.add_initial_untyped(UntypedItem::new(70, 16, 0x1000_0000, false))
        .unwrap();
    a.add_initial_untyped(UntypedItem::new(71, 16, 0x2000_0000, false))
        .unwrap();
    let (o1, _) = a
        .vka_alloc_object(ObjectType::ARM_SmallPageObject, 12, None, false)
        .unwrap();
    let (o2, _) = a
        .vka_alloc_object(ObjectType::ARM_SmallPageObject, 12, None, false)
        .unwrap();
    assert_ne!(o1.cptr, o2.cptr);
    assert_ne!(o1.ut, o2.ut);
}

#[test]
fn allocate_without_fitting_untyped_is_resource_exhausted() {
    let mut a = fresh();
    a.add_initial_untyped(UntypedItem::new(70, 10, 0x1000_0000, false))
        .unwrap();
    let r = a.vka_alloc_object(ObjectType::ARM_SmallPageObject, 12, None, false);
    assert_eq!(r.map(|_| ()), Err(Error::ResourceExhausted));
    assert_eq!(a.num_slots_used, 0);
}

#[test]
fn device_memory_is_skipped_unless_requested() {
    let mut a = fresh();
    a.add_initial_untyped(UntypedItem::new(70, 16, 0x1000_0000, true))
        .unwrap();
    let refused = a.vka_alloc_object(ObjectType::ARM_SmallPageObject, 12, None, false);
    assert_eq!(refused.map(|_| ()), Err(Error::ResourceExhausted));
    let taken = a.vka_alloc_object(ObjectType::ARM_SmallPageObject, 12, None, true);
    assert!(taken.is_ok());
}

#[test]
fn address_targeted_allocation_requires_an_exact_base() {
    let mut a = fresh();
    a.add_initial_untyped(UntypedItem::new(70, 16, 0x1000_0000, false))
        .unwrap();
    let slot = a.vka_cspace_alloc().unwrap();
    let path = a.vka_cspace_make_path(slot);
    let unknown = a.vka_utspace_alloc_at(&path, ObjectType::UntypedObject, 12, 0x9000_0000, false);
    assert_eq!(unknown.map(|_| ()), Err(Error::InvalidAddress));
    let (ut, _req) = a
        .vka_utspace_alloc_at(&path, ObjectType::UntypedObject, 12, 0x1000_0000, false)
        .unwrap();
    assert_eq!(ut, 70);
    let consumed = a.vka_utspace_alloc_at(&path, ObjectType::UntypedObject, 12, 0x1000_0000, false);
    assert_eq!(consumed.map(|_| ()), Err(Error::ResourceExhausted));
}

#[test]
fn size_class_bucket_is_preferred_for_exact_class() {
    let mut a = fresh();
    a.add_initial_untyped(UntypedItem::new(70, 16, 0x1000_0000, false))
        .unwrap();
    a.add_untyped_items(12, CapRange { first: 500, count: 2 });
    let (obj, _req) = a
        .vka_alloc_object(ObjectType::UntypedObject, 12, None, false)
        .unwrap();
    assert_eq!(obj.ut, 501);
    assert_eq!(a.untyped_items[12 - 4].count, 1);
    assert!(a.init_untyped_items[0].is_free);
}

#[test]
fn retype_outcome_follows_the_kernel_code() {
    assert_eq!(retype_outcome(42, 0), Ok(42));
    assert_eq!(retype_outcome(42, 3), Err(Error::ResourceExhausted));
}

#[test]
fn inventory_is_bounded() {
    let mut a = fresh();
    for i in 0..MAX_UNTYPED_ITEMS {
        let base = 0x1000_0000 + (i << 16);
        a.add_initial_untyped(UntypedItem::new(i, 16, base, false))
            .unwrap();
    }
    let overflow = a.add_initial_untyped(UntypedItem::new(9999, 16, 0x8000_0000, false));
    assert_eq!(overflow, Err(Error::ResourceExhausted));
}

#[test]
fn utspace_alloc_targets_the_callers_slot() {
    let mut a = fresh();
    a.add_initial_untyped(UntypedItem::new(70, 16, 0x1000_0000, false))
        .unwrap();
    let slot = a.vka_cspace_alloc().unwrap();
    let path = a.vka_cspace_make_path(slot);
    let (ut, req) = a
        .vka_utspace_alloc(&path, ObjectType::UntypedObject, 14)
        .unwrap();
    assert_eq!(ut, 70);
    assert_eq!(
        req,
        KernelRequest::Retype {
            untyped: 70,
            obj_type: 0,
            size_bits: 14,
            root: 2,
            node_index: 2,
            node_depth: 32,
            node_offset: slot,
            num_objects: 1,
        }
    );
}
