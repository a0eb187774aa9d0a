use sel4_alloc::kcall::{KernelReply, KernelRequest};
use sel4_alloc::pmem::{
    log_base_2, round_up, split_offset_plan, DMACacheOp, MAX_PAGES_PER_CALL,
};
use sel4_alloc::{Allocator, CapRange, Error, UntypedItem, PAGE_SIZE_4K, VSPACE_START};

fn booted(regions: &[(usize, usize, usize)]) -> Allocator {
    let mut a = Allocator::new(2, 32, 0, CapRange { first: 100, count: 50 });
    for &(cap, bits, base) in regions {
        a.add_initial_untyped(UntypedItem::new(cap, bits, base, false))
            .unwrap();
    }
    a.bootstrap_vspace(3).unwrap();
    a
}

#[test]
fn round_up_and_log_base_2_have_exact_values() {
    assert_eq!(round_up(0, 4096), 0);
    assert_eq!(round_up(1, 4096), 4096);
    assert_eq!(round_up(4096, 4096), 4096);
    assert_eq!(round_up(4097, 4096), 8192);
    assert_eq!(log_base_2(1), 0);
    assert_eq!(log_base_2(2), 1);
    assert_eq!(log_base_2(3), 1);
    assert_eq!(log_base_2(4096), 12);
    assert_eq!(log_base_2(12288), 13);
}

#[test]
fn split_plan_is_descending_powers_summing_to_the_offset() {
    assert_eq!(split_offset_plan(0), Vec::<usize>::new());
    assert_eq!(split_offset_plan(1), vec![0]);
    assert_eq!(split_offset_plan(4096), vec![12]);
    assert_eq!(split_offset_plan(0xA00), vec![11, 9]);
    let d: usize = 0x2_F300;
    let plan = split_offset_plan(d);
    let mut sum: usize = 0;
    for i in 0..plan.len() {
        sum += 1usize << plan[i];
        if i + 1 < plan.len() {
            assert!(plan[i] > plan[i + 1]);
        }
    }
    assert_eq!(sum, d);
}

#[test]
fn contained_paddr_finds_the_covering_region() {
    let a = booted(&[(70, 16, 0x1000_0000), (71, 16, 0x2000_0000)]);
    assert_eq!(a.contained_paddr(0x1000_0000), Ok(0x1000_0000));
    assert_eq!(a.contained_paddr(0x1000_FFFF), Ok(0x1000_0000));
    assert_eq!(a.contained_paddr(0x2000_0100), Ok(0x2000_0000));
    assert_eq!(a.contained_paddr(0x1001_0000), Err(Error::InvalidAddress));
    assert_eq!(a.untyped_size_bits(0x2000_0000), Ok(16));
    assert_eq!(a.untyped_size_bits(0x2000_0001), Err(Error::InvalidAddress));
}

#[test]
fn cache_op_chunks_cover_the_range_on_page_boundaries() {
    let a = booted(&[]);
    let reqs = a.dma_cache_op(0x1000_0F00, 0x300, DMACacheOp::Clean);
    assert_eq!(reqs.len(), 2);
    assert_eq!(
        reqs[0],
        KernelRequest::CacheRange {
            root: 3,
            start: 0x1000_0F00,
            end: 0x1000_1000,
            op: DMACacheOp::Clean,
        }
    );
    assert_eq!(
        reqs[1],
        KernelRequest::CacheRange {
            root: 3,
            start: 0x1000_1000,
            end: 0x1000_1200,
            op: DMACacheOp::Clean,
        }
    );
    let empty = a.dma_cache_op(0x1000_0000, 0, DMACacheOp::Invalidate);
    assert!(empty.is_empty());
    // A full page starting on a boundary is one chunk.
    let one = a.dma_cache_op(0x1000_1000, 4096, DMACacheOp::CleanInvalidate);
    assert_eq!(one.len(), 1);
    assert_eq!(
        one[0],
        KernelRequest::CacheRange {
            root: 3,
            start: 0x1000_1000,
            end: 0x1000_2000,
            op: DMACacheOp::CleanInvalidate,
        }
    );
}

#[test]
fn new_page_reports_the_kernel_chosen_address() {
    let mut a = booted(&[(70, 16, 0x1000_0000)]);
    let mut op = a.pmem_new_page().unwrap();
    assert_eq!(a.last_allocated, VSPACE_START + PAGE_SIZE_4K);
    // Frame retype.
    a.pmem_step(&mut op, KernelReply::Code(0)).unwrap();
    assert_eq!(op.pending(), Some(KernelRequest::GetPageAddr { frame: 100 }));
    // The kernel reports where the frame landed.
    a.pmem_step(&mut op, KernelReply::Addr { code: 0, paddr: 0x1000_3000 })
        .unwrap();
    // The map succeeds.
    a.pmem_step(&mut op, KernelReply::Code(0)).unwrap();
    assert!(op.is_done());
    let pm = op.result();
    assert_eq!(pm.vaddr, VSPACE_START);
    assert_eq!(pm.paddr, 0x1000_3000);
}

#[test]
fn new_dma_page_goes_through_the_explicit_retype_sequence() {
    let mut a = booted(&[(70, 16, 0x1000_0000), (71, 16, 0x2000_0000)]);
    let mut op = a.pmem_new_dma_page().unwrap();
    assert_eq!(a.num_slots_used, 3);
    assert_eq!(
        op.pending(),
        Some(KernelRequest::Retype {
            untyped: 70,
            obj_type: 0,
            size_bits: 12,
            root: 2,
            node_index: 2,
            node_depth: 32,
            node_offset: 100,
            num_objects: 1,
        })
    );
    a.pmem_step(&mut op, KernelReply::Code(0)).unwrap();
    assert_eq!(
        op.pending(),
        Some(KernelRequest::Retype {
            untyped: 100,
            obj_type: 8,
            size_bits: 12,
            root: 2,
            node_index: 2,
            node_depth: 32,
            node_offset: 101,
            num_objects: 1,
        })
    );
    a.pmem_step(&mut op, KernelReply::Code(0)).unwrap();
    a.pmem_step(&mut op, KernelReply::Code(0)).unwrap();
    assert!(matches!(
        op.pending(),
        Some(KernelRequest::MapPage { frame: 102, root: 3, .. })
    ));
    a.pmem_step(&mut op, KernelReply::Code(0)).unwrap();
    assert_eq!(op.pending(), Some(KernelRequest::GetPageAddr { frame: 102 }));
    a.pmem_step(&mut op, KernelReply::Addr { code: 0, paddr: 0x2000_0000 })
        .unwrap();
    assert!(op.is_done());
    let pm = op.result();
    assert_eq!(pm.vaddr, VSPACE_START);
    assert_eq!(pm.paddr, 0x2000_0000);
    assert_eq!(a.last_allocated, VSPACE_START + PAGE_SIZE_4K);
}

#[test]
fn pages_at_paddr_split_walks_to_the_target() {
    let mut a = booted(&[(50, 16, 0x2000_0000)]);
    let mut op = a.pmem_new_pages_at_paddr(0x2000_2000, 2, 0).unwrap();
    // One claim, one split step (the offset is 0x2000 = 2^13), two frames.
    assert_eq!(op.reqs.len(), 4);
    assert_eq!(
        op.reqs[0],
        KernelRequest::Retype {
            untyped: 50,
            obj_type: 0,
            size_bits: 16,
            root: 2,
            node_index: 2,
            node_depth: 32,
            node_offset: 100,
            num_objects: 1,
        }
    );
    assert_eq!(
        op.reqs[1],
        KernelRequest::Retype {
            untyped: 100,
            obj_type: 0,
            size_bits: 13,
            root: 2,
            node_index: 2,
            node_depth: 32,
            node_offset: 101,
            num_objects: 1,
        }
    );
    assert_eq!(
        op.reqs[2],
        KernelRequest::Retype {
            untyped: 100,
            obj_type: 8,
            size_bits: 13,
            root: 2,
            node_index: 2,
            node_depth: 32,
            node_offset: 102,
            num_objects: 1,
        }
    );
    assert_eq!(
        op.reqs[3],
        KernelRequest::Retype {
            untyped: 100,
            obj_type: 8,
            size_bits: 13,
            root: 2,
            node_index: 2,
            node_depth: 32,
            node_offset: 103,
            num_objects: 1,
        }
    );
    assert_eq!(a.num_slots_used, 4);
    for _ in 0..4 {
        a.pmem_step(&mut op, KernelReply::Code(0)).unwrap();
    }
    assert_eq!(op.pending(), Some(KernelRequest::GetPageAddr { frame: 102 }));
    a.pmem_step(&mut op, KernelReply::Addr { code: 0, paddr: 0x2000_2000 })
        .unwrap();
    let mut map_vaddrs = Vec::new();
    while let Some(req) = op.pending() {
        if let KernelRequest::MapPage { vaddr, .. } = req {
            map_vaddrs.push(vaddr);
        }
        a.pmem_step(&mut op, KernelReply::Code(0)).unwrap();
    }
    assert!(op.is_done());
    assert_eq!(map_vaddrs, vec![VSPACE_START, VSPACE_START + PAGE_SIZE_4K]);
    let pm = op.result();
    assert_eq!(pm.vaddr, VSPACE_START);
    assert_eq!(pm.paddr, 0x2000_2000);
    assert_eq!(a.last_allocated, VSPACE_START + 2 * PAGE_SIZE_4K);
}

#[test]
fn pages_at_paddr_without_split_when_target_is_the_base() {
    let mut a = booted(&[(50, 16, 0x2000_0000)]);
    let op = a.pmem_new_pages_at_paddr(0x2000_0000, 1, 0).unwrap();
    // One claim and one frame; no split steps.
    assert_eq!(op.reqs.len(), 2);
    assert_eq!(a.num_slots_used, 2);
}

#[test]
fn pages_at_unknown_paddr_is_invalid_address() {
    let mut a = booted(&[(50, 16, 0x2000_0000)]);
    let r = a.pmem_new_pages_at_paddr(0x9000_0000, 1, 0);
    assert_eq!(r.map(|_| ()), Err(Error::InvalidAddress));
    assert_eq!(a.num_slots_used, 0);
}

#[test]
fn a_reported_address_mismatch_is_a_fault_not_an_error() {
    let mut a = booted(&[(50, 16, 0x2000_0000)]);
    let mut op = a.pmem_new_pages_at_paddr(0x2000_2000, 1, 0).unwrap();
    let n = op.reqs.len();
    for _ in 0..n {
        a.pmem_step(&mut op, KernelReply::Code(0)).unwrap();
    }
    // The kernel reports a different physical address: a broken invariant.
    let r = a.pmem_step(&mut op, KernelReply::Addr { code: 0, paddr: 0x2000_1000 });
    assert_eq!(r, Ok(()));
    assert!(op.is_fault());
    assert!(!op.is_done());
    assert_eq!(op.pending(), None);
}

#[test]
fn failed_retype_aborts_the_operation() {
    let mut a = booted(&[(50, 16, 0x2000_0000)]);
    let mut op = a.pmem_new_pages_at_paddr(0x2000_2000, 1, 0).unwrap();
    let r = a.pmem_step(&mut op, KernelReply::Code(9));
    assert_eq!(r, Err(Error::ResourceExhausted));
    assert!(!op.is_done() && !op.is_fault());
}

#[test]
fn page_count_limit_is_enforced_by_contract() {
    assert_eq!(MAX_PAGES_PER_CALL, 64);
}

#[test]
fn dma_page_fails_cleanly_without_a_second_untyped() {
    // A single fitting region cannot supply both untyped selections.
    let mut a = booted(&[(70, 16, 0x1000_0000)]);
    let r = a.pmem_new_dma_page();
    assert_eq!(r.map(|_| ()), Err(Error::ResourceExhausted));
    assert_eq!(a.num_slots_used, 0);
    assert!(a.init_untyped_items[0].is_free);
}

#[test]
fn dma_page_fails_cleanly_without_three_slots() {
    let mut a = Allocator::new(2, 32, 0, CapRange { first: 100, count: 2 });
    a.add_initial_untyped(UntypedItem::new(70, 16, 0x1000_0000, false))
        .unwrap();
    a.add_initial_untyped(UntypedItem::new(71, 16, 0x2000_0000, false))
        .unwrap();
    a.bootstrap_vspace(3).unwrap();
    let r = a.pmem_new_dma_page();
    assert_eq!(r.map(|_| ()), Err(Error::ResourceExhausted));
    assert_eq!(a.num_slots_used, 0);
}

#[test]
fn pages_at_paddr_fails_cleanly_without_enough_slots() {
    // One claim, one split step, two frames: four slots needed, two free.
    let mut a = Allocator::new(2, 32, 0, CapRange { first: 100, count: 2 });
    a.add_initial_untyped(UntypedItem::new(50, 16, 0x2000_0000, false))
        .unwrap();
    a.bootstrap_vspace(3).unwrap();
    let r = a.pmem_new_pages_at_paddr(0x2000_2000, 2, 0);
    assert_eq!(r.map(|_| ()), Err(Error::ResourceExhausted));
    assert_eq!(a.num_slots_used, 0);
    assert!(a.init_untyped_items[0].is_free);
}

#[test]
fn pages_at_paddr_fails_cleanly_when_the_region_is_consumed() {
    let mut a = booted(&[(50, 16, 0x2000_0000)]);
    let slot = a.vka_cspace_alloc().unwrap();
    let path = a.vka_cspace_make_path(slot);
    a.vka_utspace_alloc_at(&path, sel4_alloc::object_type::ObjectType::UntypedObject, 16, 0x2000_0000, true)
        .unwrap();
    let used = a.num_slots_used;
    let r = a.pmem_new_pages_at_paddr(0x2000_2000, 1, 0);
    assert_eq!(r.map(|_| ()), Err(Error::ResourceExhausted));
    assert_eq!(a.num_slots_used, used);
}
