use vstd::prelude::*;
use crate::frame::PAGE_SIZE;

verus! {

/// Page-table entry flag: the mapping is present.
pub const PRESENT: u64 = 1;

/// Page-table entry flag: the mapping may be written.
pub const WRITABLE: u64 = 2;

/// Flags of every MMIO mapping: present and writable.
pub const MMIO_FLAGS: u64 = 3;

/// Addresses from here up cannot be identity-mapped: they are either past the
/// lower canonical half of the virtual address space or past 52 physical bits.
pub const IDENTITY_LIMIT: u64 = 0x8000_0000_0000;

/// The start of the 4 KiB page or frame that holds `addr`.
pub open spec fn page_of(addr: u64) -> u64 {
    (addr - addr % 4096) as u64
}

/// One identity mapping to install: the page at `page` onto the frame at
/// `frame`, with the page-table flags `flags`.
#[derive(Debug, Clone, Copy, PartialEq, Eq, Structural)]
pub struct MmioMapping {
    pub page: u64,
    pub frame: u64,
    pub flags: u64,
}

/// What to do to make a register block reachable.
#[derive(Debug, Clone, Copy, PartialEq, Eq, Structural)]
pub enum MapOutcome {
    /// Install this mapping through the kernel's page-table mapper.
    Install(MmioMapping),
    /// The page is mapped already; there is nothing to do.
    AlreadyMapped,
    /// The address cannot be identity-mapped.
    InvalidAddress,
}

/// The MMIO pages that the kernel has mapped, each exactly once.
pub struct MmioRegistry {
    pages: Vec<u64>,
}

/// What `map_apic` does to the mapped pages `pages` for the base address
/// `base`: the pages afterwards, and the outcome.
pub open spec fn map_apic_step(pages: Seq<u64>, base: u64) -> (Seq<u64>, MapOutcome) {
    if base >= IDENTITY_LIMIT {
        (pages, MapOutcome::InvalidAddress)
    } else if pages.contains(page_of(base)) {
        (pages, MapOutcome::AlreadyMapped)
    } else {
        (
            pages.push(page_of(base)),
            MapOutcome::Install(MmioMapping { page: page_of(base), frame: page_of(base), flags: MMIO_FLAGS }),
        )
    }
}

impl MmioRegistry {
    /// The mapped pages, in the order they were mapped.
    pub closed spec fn pages(&self) -> Seq<u64> {
        self.pages@
    }

    /// No page is recorded twice.
    pub closed spec fn wf(&self) -> bool {
        self.pages@.no_duplicates()
    }

    /// A registry with nothing mapped.
    pub fn new() -> (s: Self)
        ensures
            s.wf(),
            s.pages() == Seq::<u64>::empty(),
    {
        MmioRegistry { pages: Vec::new() }
    }

    /// Whether the page starting at `page` is mapped.
    pub fn is_mapped(&self, page: u64) -> (r: bool)
        ensures
            r == self.pages().contains(page),
    {
        let mut i: usize = 0;
        while i < self.pages.len()
            invariant
                i <= self.pages@.len(),
                forall|j: int| 0 <= j < i ==> self.pages@[j] != page,
            decreases self.pages@.len() - i,
        {
            if self.pages[i] == page {
                return true;
            }
            i = i + 1;
        }
        false
    }
}

/// Decides how to identity-map the page that holds the register block at
/// physical address `apic_base`, present and writable. A page that is mapped
/// already is recognised and left alone, so mapping the same base twice (or
/// two bases on one page) installs one mapping.
pub fn map_apic(apic_base: u64, registry: &mut MmioRegistry) -> (r: MapOutcome)
    requires
        old(registry).wf(),
    ensures
        final(registry).wf(),
        (final(registry).pages(), r) == map_apic_step(old(registry).pages(), apic_base),
{
    if apic_base >= IDENTITY_LIMIT {
        return MapOutcome::InvalidAddress;
    }
    let page = apic_base - apic_base % PAGE_SIZE;
    if registry.is_mapped(page) {
        return MapOutcome::AlreadyMapped;
    }
    registry.pages.push(page);
    MapOutcome::Install(MmioMapping { page, frame: page, flags: MMIO_FLAGS })
}

/// Mapping a register block a second time, or any address on the same page,
/// maps nothing more: the second request is recognised as already mapped.
pub proof fn lemma_map_apic_twice(pages: Seq<u64>, first: u64, second: u64)
    requires
        first < IDENTITY_LIMIT,
        page_of(first) == page_of(second),
    ensures
        map_apic_step(map_apic_step(pages, first).0, second).1 == MapOutcome::AlreadyMapped,
        map_apic_step(map_apic_step(pages, first).0, second).0 == map_apic_step(pages, first).0,
{
    let after = map_apic_step(pages, first).0;
    if !pages.contains(page_of(first)) {
        assert(after[after.len() - 1] == page_of(first));
    }
    assert(after.contains(page_of(first)));
}

} // verus!
