use vstd::prelude::*;
use crate::frame::{usable_frames, BootInfoFrameAllocator, PAGE_SIZE};

verus! {

/// First virtual address of the kernel heap.
pub const HEAP_START: u64 = 0x4444_4444_0000;

/// Size of the kernel heap in bytes.
pub const HEAP_SIZE: u64 = 100 * 1024;

/// Number of pages that the heap spans.
pub const HEAP_PAGES: usize = 25;

/// The `k`-th page of the heap.
pub open spec fn heap_page(k: int) -> u64 {
    (HEAP_START + k * 4096) as u64
}

/// The index of the heap page that holds `addr`.
pub open spec fn heap_page_index(addr: int) -> int {
    (addr - HEAP_START) / 4096
}

/// One heap page and the physical frame chosen to back it.
#[derive(Debug, Clone, Copy, PartialEq, Eq, Structural)]
pub struct PageMapping {
    pub page: u64,
    pub frame: u64,
}

/// Why the heap could not be set up.
#[derive(Debug, Clone, Copy, PartialEq, Eq, Structural)]
pub enum HeapError {
    /// The memory map ran out of usable frames before every heap page had one.
    FrameAllocationFailed,
}

/// Chooses a fresh physical frame for every page of the heap, in page order.
/// The pages are then mapped writable and the range handed to the heap
/// allocator. Fails when the memory map runs out of frames first.
pub fn init_heap(frame_allocator: &mut BootInfoFrameAllocator) -> (r: Result<[PageMapping; HEAP_PAGES], HeapError>)
    requires
        old(frame_allocator).wf(),
    ensures
        final(frame_allocator).wf(),
        final(frame_allocator).regions() == old(frame_allocator).regions(),
        r is Ok <==> old(frame_allocator).handed_out() + HEAP_PAGES <= usable_frames(
            old(frame_allocator).regions(),
        ).len(),
        r is Ok ==> final(frame_allocator).handed_out() == old(frame_allocator).handed_out() + HEAP_PAGES,
        r matches Ok(m) ==> m@.len() == HEAP_PAGES && forall|k: int|
            0 <= k < HEAP_PAGES ==> (#[trigger] m@[k]).page == heap_page(k) && m@[k].frame
                == usable_frames(old(frame_allocator).regions())[old(frame_allocator).handed_out() + k],
{
    let ghost frames = usable_frames(old(frame_allocator).regions());
    let ghost start = old(frame_allocator).handed_out();
    let mut mappings: [PageMapping; HEAP_PAGES] = [PageMapping { page: 0, frame: 0 }; HEAP_PAGES];
    let mut k: usize = 0;
    proof {
        frame_allocator.lemma_handed_out_bound();
    }
    while k < HEAP_PAGES
        invariant
            k <= HEAP_PAGES,
            frame_allocator.wf(),
            frame_allocator.regions() == old(frame_allocator).regions(),
            frames == usable_frames(old(frame_allocator).regions()),
            start == old(frame_allocator).handed_out(),
            frame_allocator.handed_out() == start + k,
            start + k <= frames.len(),
            mappings@.len() == HEAP_PAGES,
            forall|i: int|
                0 <= i < k ==> (#[trigger] mappings@[i]).page == heap_page(i) && mappings@[i].frame
                    == frames[start + i],
        decreases HEAP_PAGES - k,
    {
        match frame_allocator.allocate_frame() {
            Some(frame) => {
                mappings[k] = PageMapping { page: HEAP_START + k as u64 * PAGE_SIZE, frame };
                k = k + 1;
            },
            None => {
                return Err(HeapError::FrameAllocationFailed);
            },
        }
    }
    Ok(mappings)
}

/// The heap pages cover the advertised heap exactly: every byte from
/// `HEAP_START` up to `HEAP_START + HEAP_SIZE` lies on one of the
/// `HEAP_PAGES` pages that `init_heap` maps, and no page reaches past it.
pub proof fn lemma_heap_pages_cover_heap()
    ensures
        HEAP_PAGES * 4096 == HEAP_SIZE,
        forall|addr: int|
            HEAP_START <= addr < HEAP_START + HEAP_SIZE ==> {
                &&& 0 <= #[trigger] heap_page_index(addr) < HEAP_PAGES
                &&& heap_page(heap_page_index(addr)) <= addr < heap_page(heap_page_index(addr)) + 4096
            },
        forall|k: int| 0 <= k < HEAP_PAGES ==> HEAP_START <= #[trigger] heap_page(k) && heap_page(k)
            + 4096 <= HEAP_START + HEAP_SIZE,
{
    assert forall|addr: int| HEAP_START <= addr < HEAP_START + HEAP_SIZE implies {
        &&& 0 <= #[trigger] heap_page_index(addr) < HEAP_PAGES
        &&& heap_page(heap_page_index(addr)) <= addr < heap_page(heap_page_index(addr)) + 4096
    } by {
        let d = addr - HEAP_START;
        let k = d / 4096;
        assert(0 <= k < 25 && k * 4096 <= d < k * 4096 + 4096) by (nonlinear_arith)
            requires
                0 <= d < 102400,
                k == d / 4096,
        ;
    }
    assert forall|k: int| 0 <= k < HEAP_PAGES implies HEAP_START <= #[trigger] heap_page(k)
        && heap_page(k) + 4096 <= HEAP_START + HEAP_SIZE by {
        assert(0 <= k * 4096 && k * 4096 + 4096 <= 102400) by (nonlinear_arith)
            requires
                0 <= k < 25,
        ;
    }
}

} // verus!
