use portfolios::frame::{BootInfoFrameAllocator, MemoryRegion, MemoryRegionKind, PAGE_SIZE};
use portfolios::heap::{init_heap, HeapError, HEAP_PAGES, HEAP_SIZE, HEAP_START};
use core::alloc::Layout;
use core::mem::MaybeUninit;
use linked_list_allocator::Heap;
use portfolios::paging::{map_apic, MapOutcome, MmioMapping, MmioRegistry, MMIO_FLAGS};

fn usable(start: u64, end: u64) -> MemoryRegion {
    MemoryRegion { start, end, kind: MemoryRegionKind::Usable }
}

#[test]
fn five_frames_come_from_the_lower_region_first() {
    let regions = vec![usable(0x1000, 0x2000), usable(0x10000, 0x20000)];
    let mut frames = BootInfoFrameAllocator::init(&regions);
    let got: Vec<u64> = (0..5).map(|_| frames.allocate_frame().unwrap()).collect();
    assert_eq!(got, vec![0x1000, 0x10000, 0x11000, 0x12000, 0x13000]);
    for w in got.windows(2) {
        assert!(w[0] < w[1]);
    }
}

#[test]
fn allocator_runs_dry_and_stays_dry() {
    let regions = [usable(0x3000, 0x5000)];
    let mut frames = BootInfoFrameAllocator::init(&regions);
    assert_eq!(frames.allocate_frame(), Some(0x3000));
    assert_eq!(frames.allocate_frame(), Some(0x4000));
    assert_eq!(frames.allocate_frame(), None);
    assert_eq!(frames.allocate_frame(), None);
}

#[test]
fn reserved_regions_are_skipped() {
    let regions = vec![
        MemoryRegion { start: 0x0, end: 0x1000, kind: MemoryRegionKind::Bootloader },
        MemoryRegion { start: 0x1000, end: 0x2000, kind: MemoryRegionKind::UnknownBios(2) },
        usable(0x8000, 0x9000),
        MemoryRegion { start: 0x9000, end: 0xA000, kind: MemoryRegionKind::UnknownUefi(7) },
    ];
    let mut frames = BootInfoFrameAllocator::init(&regions);
    assert_eq!(frames.allocate_frame(), Some(0x8000));
    assert_eq!(frames.allocate_frame(), None);
}

#[test]
fn only_whole_frames_inside_a_region_are_used() {
    let regions = vec![usable(0x1800, 0x4100), usable(0x5000, 0x5fff)];
    let mut frames = BootInfoFrameAllocator::init(&regions);
    assert_eq!(frames.allocate_frame(), Some(0x2000));
    assert_eq!(frames.allocate_frame(), Some(0x3000));
    assert_eq!(frames.allocate_frame(), None);
}

#[test]
fn empty_memory_map_has_no_frames() {
    let regions: [MemoryRegion; 0] = [];
    let mut frames = BootInfoFrameAllocator::init(&regions);
    assert_eq!(frames.allocate_frame(), None);
}

#[test]
fn region_at_the_top_of_memory() {
    let regions = [usable(u64::MAX - 0x2fff, u64::MAX)];
    let mut frames = BootInfoFrameAllocator::init(&regions);
    assert_eq!(frames.allocate_frame(), Some(u64::MAX - 0x2fff));
    assert_eq!(frames.allocate_frame(), Some(u64::MAX - 0x1fff));
    assert_eq!(frames.allocate_frame(), None);
}

#[test]
fn heap_pages_each_get_a_fresh_frame() {
    let regions = [usable(0x100000, 0x200000)];
    let mut frames = BootInfoFrameAllocator::init(&regions);
    assert_eq!(frames.allocate_frame(), Some(0x100000));
    let mappings = init_heap(&mut frames).unwrap();
    assert_eq!(mappings.len(), HEAP_PAGES);
    assert_eq!(HEAP_PAGES as u64 * PAGE_SIZE, HEAP_SIZE);
    for (k, m) in mappings.iter().enumerate() {
        assert_eq!(m.page, HEAP_START + k as u64 * PAGE_SIZE);
        assert_eq!(m.frame, 0x101000 + k as u64 * PAGE_SIZE);
    }
    assert_eq!(frames.allocate_frame(), Some(0x101000 + HEAP_PAGES as u64 * PAGE_SIZE));
}

#[test]
fn heap_setup_fails_without_enough_frames() {
    let regions = [usable(0x100000, 0x100000 + 24 * 4096)];
    let mut frames = BootInfoFrameAllocator::init(&regions);
    assert_eq!(init_heap(&mut frames), Err(HeapError::FrameAllocationFailed));
}

#[test]
fn heap_setup_with_exactly_enough_frames() {
    let regions = [usable(0x100000, 0x100000 + 25 * 4096)];
    let mut frames = BootInfoFrameAllocator::init(&regions);
    assert!(init_heap(&mut frames).is_ok());
    assert_eq!(frames.allocate_frame(), None);
}

#[test]
fn mapping_the_same_mmio_base_twice_maps_once() {
    let mut registry = MmioRegistry::new();
    assert_eq!(
        map_apic(0xFEE0_0000, &mut registry),
        MapOutcome::Install(MmioMapping { page: 0xFEE0_0000, frame: 0xFEE0_0000, flags: MMIO_FLAGS })
    );
    assert_eq!(map_apic(0xFEE0_0000, &mut registry), MapOutcome::AlreadyMapped);
    assert!(registry.is_mapped(0xFEE0_0000));
}

#[test]
fn bases_on_one_page_share_a_mapping() {
    let mut registry = MmioRegistry::new();
    assert_eq!(
        map_apic(0xFEC0_0010, &mut registry),
        MapOutcome::Install(MmioMapping { page: 0xFEC0_0000, frame: 0xFEC0_0000, flags: 3 })
    );
    assert_eq!(map_apic(0xFEC0_0FFF, &mut registry), MapOutcome::AlreadyMapped);
    assert!(matches!(map_apic(0xFEC0_1000, &mut registry), MapOutcome::Install(_)));
}

#[test]
fn addresses_beyond_the_lower_half_cannot_be_identity_mapped() {
    let mut registry = MmioRegistry::new();
    assert_eq!(map_apic(0x8000_0000_0000, &mut registry), MapOutcome::InvalidAddress);
    assert!(!registry.is_mapped(0x8000_0000_0000));
    assert!(matches!(map_apic(0x7FFF_FFFF_F000, &mut registry), MapOutcome::Install(_)));
}

#[test]
fn heap_of_the_advertised_size_fails_exactly_past_its_capacity() {
    let size = HEAP_SIZE as usize;
    let buffer: &'static mut [MaybeUninit<u8>] =
        Box::leak(vec![MaybeUninit::<u8>::uninit(); size + 64].into_boxed_slice());
    let offset = (64 - (buffer.as_ptr() as usize % 64)) % 64;
    let mut heap = Heap::from_slice(&mut buffer[offset..offset + size]);
    let block = Layout::from_size_align(1024, 8).unwrap();
    for _ in 0..size / 1024 {
        assert!(heap.allocate_first_fit(block).is_ok());
    }
    assert_eq!(heap.used(), size);
    assert!(heap.allocate_first_fit(Layout::from_size_align(8, 8).unwrap()).is_err());
}

#[test]
fn unordered_disjoint_regions_never_repeat_a_frame() {
    let regions = [usable(0x10000, 0x12000), usable(0x1000, 0x3000)];
    let mut frames = BootInfoFrameAllocator::init(&regions);
    let mut got = Vec::new();
    while let Some(f) = frames.allocate_frame() {
        got.push(f);
    }
    assert_eq!(got, vec![0x10000, 0x11000, 0x1000, 0x2000]);
}
