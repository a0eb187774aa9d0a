use sel4_alloc::kcall::{KernelRequest, KCALL_OK};
use sel4_alloc::vspace::DEFAULT_VM_ATTRIBUTES;
use sel4_alloc::{Allocator, CapRange, Error, UntypedItem, PAGE_BITS_4K, PAGE_SIZE_4K, VSPACE_START};

fn booted(regions: &[(usize, usize, usize)]) -> Allocator {
    let mut a = Allocator::new(2, 32, 0, CapRange { first: 100, count: 50 });
    for &(cap, bits, base) in regions {
        a.add_initial_untyped(UntypedItem::new(cap, bits, base, false))
            .unwrap();
    }
    a.bootstrap_vspace(3).unwrap();
    a
}

#[test]
fn bootstrap_sets_root_and_cursor() {
    let a = booted(&[]);
    assert_eq!(a.vspace_get_root(), 3);
    assert_eq!(a.last_allocated, VSPACE_START);
}

#[test]
fn one_page_maps_at_the_cursor_and_advances_it() {
    let mut a = booted(&[(77, 16, 0x1000_0000)]);
    let mut op = a
        .vspace_new_pages(1, PAGE_BITS_4K, DEFAULT_VM_ATTRIBUTES)
        .unwrap();
    assert_eq!(op.base_vaddr, VSPACE_START);
    let mut steps = 0;
    while let Some(_req) = op.pending() {
        a.vspace_pages_step(&mut op, KCALL_OK).unwrap();
        steps += 1;
        assert!(steps < 10);
    }
    assert!(op.is_done());
    assert_eq!(op.result_vaddr(), VSPACE_START);
    assert_eq!(a.last_allocated, VSPACE_START + PAGE_SIZE_4K);
    assert_eq!(a.num_slots_used, 1);
}

#[test]
fn pages_are_mapped_at_consecutive_addresses() {
    let mut a = booted(&[
        (70, 16, 0x1000_0000),
        (71, 16, 0x2000_0000),
        (72, 16, 0x3000_0000),
    ]);
    let mut op = a
        .vspace_new_pages(3, PAGE_BITS_4K, DEFAULT_VM_ATTRIBUTES)
        .unwrap();
    let mut map_vaddrs = Vec::new();
    while let Some(req) = op.pending() {
        if let KernelRequest::MapPage { vaddr, root, .. } = req {
            assert_eq!(root, 3);
            map_vaddrs.push(vaddr);
        }
        a.vspace_pages_step(&mut op, KCALL_OK).unwrap();
    }
    assert!(op.is_done());
    assert_eq!(
        map_vaddrs,
        vec![
            VSPACE_START,
            VSPACE_START + PAGE_SIZE_4K,
            VSPACE_START + 2 * PAGE_SIZE_4K
        ]
    );
    assert_eq!(a.last_allocated, VSPACE_START + 3 * PAGE_SIZE_4K);
    assert_eq!(a.num_slots_used, 3);
}

#[test]
fn zero_pages_is_a_completed_reservation_of_nothing() {
    let mut a = booted(&[]);
    let op = a
        .vspace_new_pages(0, PAGE_BITS_4K, DEFAULT_VM_ATTRIBUTES)
        .unwrap();
    assert!(op.is_done());
    assert_eq!(op.pending(), None);
    assert_eq!(a.last_allocated, VSPACE_START);
}

#[test]
fn unsupported_frame_size_is_refused() {
    let mut a = booted(&[(70, 16, 0x1000_0000)]);
    let r = a.vspace_new_pages(1, 13, DEFAULT_VM_ATTRIBUTES);
    assert_eq!(r.map(|_| ()), Err(Error::Other));
}

#[test]
fn failed_map_creates_a_page_table_then_retries() {
    let mut a = booted(&[(70, 16, 0x1000_0000), (71, 16, 0x2000_0000)]);
    let mut op = a
        .vspace_new_pages(1, PAGE_BITS_4K, DEFAULT_VM_ATTRIBUTES)
        .unwrap();
    // The frame retype succeeds.
    a.vspace_pages_step(&mut op, KCALL_OK).unwrap();
    assert!(matches!(op.pending(), Some(KernelRequest::MapPage { .. })));
    // The map fails: a page table is allocated on demand.
    a.vspace_pages_step(&mut op, 1).unwrap();
    match op.pending() {
        Some(KernelRequest::Retype { obj_type, .. }) => assert_eq!(obj_type, 10),
        other => panic!("expected a page-table retype, got {:?}", other),
    }
    let pt_slot = a.page_table;
    assert_eq!(pt_slot, 101);
    // Page-table retype and map succeed, then the retried page map succeeds.
    a.vspace_pages_step(&mut op, KCALL_OK).unwrap();
    match op.pending() {
        Some(KernelRequest::MapPageTable { table, root, vaddr, .. }) => {
            assert_eq!(table, pt_slot);
            assert_eq!(root, 3);
            assert_eq!(vaddr, VSPACE_START);
        }
        other => panic!("expected a page-table map, got {:?}", other),
    }
    a.vspace_pages_step(&mut op, KCALL_OK).unwrap();
    a.vspace_pages_step(&mut op, KCALL_OK).unwrap();
    assert!(op.is_done());
    assert_eq!(a.last_allocated, VSPACE_START + PAGE_SIZE_4K);
    assert_eq!(a.num_slots_used, 2);
}

#[test]
fn second_map_failure_is_fatal_for_the_operation() {
    let mut a = booted(&[(70, 16, 0x1000_0000), (71, 16, 0x2000_0000)]);
    let mut op = a
        .vspace_new_pages(1, PAGE_BITS_4K, DEFAULT_VM_ATTRIBUTES)
        .unwrap();
    a.vspace_pages_step(&mut op, KCALL_OK).unwrap();
    a.vspace_pages_step(&mut op, 1).unwrap();
    a.vspace_pages_step(&mut op, KCALL_OK).unwrap();
    a.vspace_pages_step(&mut op, KCALL_OK).unwrap();
    // The retried map fails too.
    let r = a.vspace_pages_step(&mut op, 1);
    assert_eq!(r, Err(Error::Other));
    assert_eq!(op.pending(), None);
    assert!(!op.is_done());
}

#[test]
fn failed_frame_retype_reports_resource_exhaustion() {
    let mut a = booted(&[(70, 16, 0x1000_0000)]);
    let mut op = a
        .vspace_new_pages(1, PAGE_BITS_4K, DEFAULT_VM_ATTRIBUTES)
        .unwrap();
    let r = a.vspace_pages_step(&mut op, 7);
    assert_eq!(r, Err(Error::ResourceExhausted));
    assert!(!op.is_done());
}

#[test]
fn stack_reserves_a_guard_page_below_and_aligns_the_top() {
    let mut a = booted(&[(70, 16, 0x1000_0000), (71, 16, 0x2000_0000)]);
    let (mut op, top) = a.vspace_new_sized_stack(2).unwrap();
    assert_eq!(top, VSPACE_START + 3 * PAGE_SIZE_4K);
    assert_eq!(top % 8, 0);
    assert_eq!(op.base_vaddr, VSPACE_START + PAGE_SIZE_4K);
    let mut map_vaddrs = Vec::new();
    while let Some(req) = op.pending() {
        if let KernelRequest::MapPage { vaddr, .. } = req {
            map_vaddrs.push(vaddr);
        }
        a.vspace_pages_step(&mut op, KCALL_OK).unwrap();
    }
    assert!(op.is_done());
    // The guard page, immediately below the stack's lowest page, is never
    // mapped.
    assert_eq!(
        map_vaddrs,
        vec![VSPACE_START + PAGE_SIZE_4K, VSPACE_START + 2 * PAGE_SIZE_4K]
    );
    assert!(map_vaddrs.iter().all(|v| *v >= VSPACE_START + PAGE_SIZE_4K));
    assert_eq!(a.last_allocated, VSPACE_START + 3 * PAGE_SIZE_4K);
}

#[test]
fn ipc_buffer_is_one_mapped_page() {
    let mut a = booted(&[(70, 16, 0x1000_0000)]);
    let mut op = a.vspace_new_ipc_buffer().unwrap();
    while let Some(_req) = op.pending() {
        a.vspace_pages_step(&mut op, KCALL_OK).unwrap();
    }
    assert!(op.is_done());
    assert_eq!(op.result_vaddr(), VSPACE_START);
    assert_eq!(op.result_first_cap(), 100);
    assert_eq!(a.last_allocated, VSPACE_START + PAGE_SIZE_4K);
}

#[test]
fn address_targeted_first_frame_comes_from_the_named_region() {
    let mut a = booted(&[(70, 16, 0x1000_0000), (71, 16, 0x2000_0000)]);
    let mut op = a
        .vspace_new_pages_at(Some(0x2000_0000), 2, PAGE_BITS_4K, DEFAULT_VM_ATTRIBUTES, false)
        .unwrap();
    // The first frame's retype draws from the region at the requested base.
    match op.pending() {
        Some(KernelRequest::Retype { untyped, .. }) => assert_eq!(untyped, 71),
        other => panic!("expected a frame retype, got {:?}", other),
    }
    let mut frame_retypes = Vec::new();
    while let Some(req) = op.pending() {
        if let KernelRequest::Retype { untyped, .. } = req {
            frame_retypes.push(untyped);
        }
        a.vspace_pages_step(&mut op, KCALL_OK).unwrap();
    }
    assert!(op.is_done());
    // The second frame has no address constraint and draws from the first
    // free region.
    assert_eq!(frame_retypes, vec![71, 70]);
}
