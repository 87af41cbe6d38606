use vstd::prelude::*;

verus! {

/// Size in bytes of one physical frame and of one virtual page.
pub const PAGE_SIZE: u64 = 4096;

/// What the bootloader reports a physical memory region to be used for.
#[derive(Debug, Clone, Copy, PartialEq, Eq, Structural)]
pub enum MemoryRegionKind {
    /// Free memory that the kernel may hand out.
    Usable,
    /// Memory that the bootloader itself occupies (kernel image, page tables, boot info).
    Bootloader,
    /// A region that UEFI firmware reported with this memory type.
    UnknownUefi(u32),
    /// A region that the BIOS reported with this memory type.
    UnknownBios(u32),
}

/// One entry of the bootloader's physical memory map: the bytes `start..end`.
#[derive(Debug, Clone, Copy, PartialEq, Eq, Structural)]
pub struct MemoryRegion {
    pub start: u64,
    pub end: u64,
    pub kind: MemoryRegionKind,
}

/// The lowest frame-aligned address at or above `start`.
pub open spec fn first_frame(r: MemoryRegion) -> int {
    if r.start % 4096 == 0 {
        r.start as int
    } else {
        r.start - r.start % 4096 + 4096
    }
}

/// How many whole frames fit inside the region (none if it is not usable).
pub open spec fn frame_count(r: MemoryRegion) -> nat {
    if r.kind == MemoryRegionKind::Usable && first_frame(r) + 4096 <= r.end {
        ((r.end - first_frame(r)) / 4096) as nat
    } else {
        0
    }
}

/// The whole frames of one region, lowest first.
pub open spec fn region_frames(r: MemoryRegion) -> Seq<u64> {
    Seq::new(frame_count(r), |k: int| (first_frame(r) + k * 4096) as u64)
}

/// Every frame that the memory map offers, region by region, in map order.
pub open spec fn usable_frames(regions: Seq<MemoryRegion>) -> Seq<u64>
    decreases regions.len(),
{
    if regions.len() == 0 {
        Seq::empty()
    } else {
        region_frames(regions[0]) + usable_frames(regions.drop_first())
    }
}

/// The number of frames of a region, computed without overflow.
fn region_frame_count(r: &MemoryRegion) -> (n: u64)
    ensures
        n == frame_count(*r),
        n > 0 ==> first_frame(*r) <= u64::MAX,
{
    if r.kind != MemoryRegionKind::Usable {
        return 0;
    }
    let rem = r.start % PAGE_SIZE;
    let first: u64 = if rem == 0 {
        r.start
    } else {
        if r.start - rem > u64::MAX - PAGE_SIZE {
            return 0;
        }
        r.start - rem + PAGE_SIZE
    };
    if first > r.end || r.end - first < PAGE_SIZE {
        return 0;
    }
    (r.end - first) / PAGE_SIZE
}

/// The first frame of a region that has at least one.
fn region_first_frame(r: &MemoryRegion) -> (f: u64)
    requires
        frame_count(*r) > 0,
    ensures
        f == first_frame(*r),
{
    let rem = r.start % PAGE_SIZE;
    if rem == 0 {
        r.start
    } else {
        r.start - rem + PAGE_SIZE
    }
}

/// Hands out the usable physical frames of the bootloader's memory map, one
/// after another and never the same one twice: a cursor that only moves
/// forward, with no way to give a frame back.
pub struct BootInfoFrameAllocator<'a> {
    memory_regions: &'a [MemoryRegion],
    region: usize,
    offset: u64,
}

impl<'a> BootInfoFrameAllocator<'a> {
    /// The memory map that the allocator draws from.
    pub closed spec fn regions(&self) -> Seq<MemoryRegion> {
        self.memory_regions@
    }

    /// How many frames have been handed out so far.
    pub closed spec fn handed_out(&self) -> nat {
        usable_frames(self.memory_regions@.subrange(0, self.region as int)).len() + self.offset as nat
    }

    /// The cursor stands inside the map: within a region, or past the last one.
    pub closed spec fn wf(&self) -> bool {
        &&& self.region <= self.memory_regions@.len()
        &&& self.region < self.memory_regions@.len() ==> self.offset <= frame_count(
            self.memory_regions@[self.region as int],
        )
        &&& self.region == self.memory_regions@.len() ==> self.offset == 0
    }

    /// No more frames have been handed out than the memory map offers.
    pub proof fn lemma_handed_out_bound(&self)
        requires
            self.wf(),
        ensures
            self.handed_out() <= usable_frames(self.regions()).len(),
    {
        let regions = self.memory_regions@;
        lemma_usable_frames_cut(regions, self.region as int);
        if self.region < regions.len() {
            lemma_usable_frames_split(regions, self.region as int);
        }
    }

    /// An allocator over the given memory map that has handed out nothing yet.
    pub fn init(memory_regions: &'a [MemoryRegion]) -> (s: Self)
        ensures
            s.wf(),
            s.regions() == memory_regions@,
            s.handed_out() == 0,
    {
        let s = BootInfoFrameAllocator { memory_regions, region: 0, offset: 0 };
        assert(s.memory_regions@.subrange(0, 0) =~= Seq::<MemoryRegion>::empty());
        assert(usable_frames(Seq::<MemoryRegion>::empty()) == Seq::<u64>::empty());
        s
    }

    /// Hands out the next unused frame, as its physical start address, or
    /// `None` once every usable frame has been handed out.
    pub fn allocate_frame(&mut self) -> (r: Option<u64>)
        requires
            old(self).wf(),
        ensures
            final(self).wf(),
            final(self).regions() == old(self).regions(),
            old(self).handed_out() < usable_frames(old(self).regions()).len() ==> r == Some(
                usable_frames(old(self).regions())[old(self).handed_out() as int],
            ) && final(self).handed_out() == old(self).handed_out() + 1,
            old(self).handed_out() >= usable_frames(old(self).regions()).len() ==> r is None
                && final(self).handed_out() == old(self).handed_out(),
    {
        let ghost regions = self.memory_regions@;
        let ghost start = self.handed_out();
        proof {
            lemma_usable_frames_cut(regions, self.region as int);
        }
        while self.region < self.memory_regions.len()
            invariant
                self.wf(),
                self.memory_regions@ == regions,
                regions == old(self).memory_regions@,
                start == old(self).handed_out(),
                self.handed_out() == start,
                usable_frames(regions) == usable_frames(regions.subrange(0, self.region as int))
                    + usable_frames(regions.subrange(self.region as int, regions.len() as int)),
            decreases regions.len() - self.region,
        {
            let i = self.region;
            let count = region_frame_count(&self.memory_regions[i]);
            proof {
                lemma_usable_frames_split(regions, i as int);
                lemma_usable_frames_cut(regions, i as int + 1);
            }
            if self.offset < count {
                let r = &self.memory_regions[i];
                let first = region_first_frame(r);
                let k = self.offset;
                assert(first + k * 4096 < first + count * 4096 <= r.end) by (nonlinear_arith)
                    requires
                        k < count,
                        count == (r.end - first) / 4096,
                        first + 4096 <= r.end,
                ;
                let frame = first + k * PAGE_SIZE;
                self.offset = k + 1;
                return Some(frame);
            }
            self.region = i + 1;
            self.offset = 0;
        }
        proof {
            assert(regions.subrange(0, regions.len() as int) =~= regions);
            assert(regions.subrange(regions.len() as int, regions.len() as int) =~= Seq::<MemoryRegion>::empty());
            assert(usable_frames(Seq::<MemoryRegion>::empty()) == Seq::<u64>::empty());
            assert(usable_frames(regions) =~= usable_frames(regions.subrange(0, self.region as int)));
        }
        None
    }
}

/// The usable regions of the map come in ascending address order and do not overlap.
pub open spec fn regions_ascending(regions: Seq<MemoryRegion>) -> bool {
    forall|i: int, j: int|
        0 <= i < j < regions.len() && regions[i].kind == MemoryRegionKind::Usable
            && regions[j].kind == MemoryRegionKind::Usable ==> regions[i].end <= regions[j].start
}

/// The frames of one region lie inside it, are frame-aligned and ascend.
proof fn lemma_region_frames(r: MemoryRegion)
    ensures
        forall|k: int|
            0 <= k < region_frames(r).len() ==> {
                &&& r.start <= region_frames(r)[k]
                &&& region_frames(r)[k] + 4096 <= r.end
                &&& region_frames(r)[k] % 4096 == 0
            },
        forall|i: int, j: int|
            0 <= i < j < region_frames(r).len() ==> region_frames(r)[i] < region_frames(r)[j],
{
    let first = first_frame(r);
    assert(first % 4096 == 0 && first >= r.start);
    if frame_count(r) > 0 {
        let count = frame_count(r) as int;
        assert forall|k: int| 0 <= k < count implies #[trigger] region_frames(r)[k] + 4096 <= r.end
            && region_frames(r)[k] % 4096 == 0 && r.start <= region_frames(r)[k] by {
            assert(first + k * 4096 + 4096 <= r.end && (first + k * 4096) % 4096 == 0)
                by (nonlinear_arith)
                requires
                    0 <= k < count,
                    count == (r.end - first) / 4096,
                    first % 4096 == 0,
            ;
            assert(k * 4096 >= 0) by (nonlinear_arith) requires k >= 0;
        }
        assert forall|i: int, j: int| 0 <= i < j < count implies #[trigger] region_frames(r)[i]
            < #[trigger] region_frames(r)[j] by {
            assert(first + i * 4096 < first + j * 4096) by (nonlinear_arith)
                requires
                    i < j,
            ;
            assert(first + j * 4096 + 4096 <= r.end) by (nonlinear_arith)
                requires
                    0 <= j < count,
                    count == (r.end - first) / 4096,
                    first % 4096 == 0,
            ;
            assert(i * 4096 >= 0) by (nonlinear_arith) requires i >= 0;
        }
    }
}

/// Every frame of a map lies at or above any address below which no usable
/// region starts, and is frame-aligned.
proof fn lemma_frames_above(regions: Seq<MemoryRegion>, lo: int)
    requires
        forall|j: int|
            0 <= j < regions.len() && regions[j].kind == MemoryRegionKind::Usable ==> lo
                <= regions[j].start,
    ensures
        forall|k: int|
            0 <= k < usable_frames(regions).len() ==> lo <= usable_frames(regions)[k]
                && usable_frames(regions)[k] % 4096 == 0,
    decreases regions.len(),
{
    if regions.len() > 0 {
        let rest = regions.drop_first();
        assert forall|j: int| 0 <= j < rest.len() && rest[j].kind == MemoryRegionKind::Usable implies lo
            <= rest[j].start by {
            assert(rest[j] == regions[j + 1]);
        }
        lemma_frames_above(rest, lo);
        lemma_region_frames(regions[0]);
        if frame_count(regions[0]) > 0 {
            assert(regions[0].kind == MemoryRegionKind::Usable);
        }
        let head = region_frames(regions[0]);
        let all = usable_frames(regions);
        assert(all == head + usable_frames(rest));
        assert forall|k: int| 0 <= k < all.len() implies lo <= #[trigger] all[k] && all[k] % 4096
            == 0 by {
            if k >= head.len() {
                assert(all[k] == usable_frames(rest)[k - head.len()]);
            } else {
                assert(all[k] == head[k]);
            }
        }
    }
}

/// Frames come out of an ascending memory map in strictly ascending order:
/// the lower region first, each frame frame-aligned, so that no frame is ever
/// handed out twice.
pub proof fn lemma_frames_ascending(regions: Seq<MemoryRegion>)
    requires
        regions_ascending(regions),
    ensures
        forall|i: int, j: int|
            0 <= i < j < usable_frames(regions).len() ==> usable_frames(regions)[i]
                < usable_frames(regions)[j],
        forall|k: int|
            0 <= k < usable_frames(regions).len() ==> usable_frames(regions)[k] % 4096 == 0,
    decreases regions.len(),
{
    lemma_frames_above(regions, 0);
    if regions.len() > 0 {
        let rest = regions.drop_first();
        let head = region_frames(regions[0]);
        assert(regions_ascending(rest)) by {
            assert forall|i: int, j: int|
                0 <= i < j < rest.len() && rest[i].kind == MemoryRegionKind::Usable
                    && rest[j].kind == MemoryRegionKind::Usable implies rest[i].end
                <= rest[j].start by {
                assert(rest[i] == regions[i + 1] && rest[j] == regions[j + 1]);
            }
        }
        lemma_frames_ascending(rest);
        lemma_region_frames(regions[0]);
        if head.len() > 0 {
            assert forall|j: int| 0 <= j < rest.len() && rest[j].kind == MemoryRegionKind::Usable implies regions[0].end
                <= rest[j].start by {
                assert(rest[j] == regions[j + 1]);
            }
            lemma_frames_above(rest, regions[0].end as int);
        }
        let all = usable_frames(regions);
        assert(all == head + usable_frames(rest));
        assert forall|i: int, j: int| 0 <= i < j < all.len() implies all[i] < all[j] by {
            if j < head.len() {
            } else if i >= head.len() {
                assert(all[i] == usable_frames(rest)[i - head.len()]);
                assert(all[j] == usable_frames(rest)[j - head.len()]);
            } else {
                assert(all[j] == usable_frames(rest)[j - head.len()]);
            }
        }
    }
}

/// Every frame that the memory map offers lies wholly inside one of its
/// usable regions, and is frame-aligned.
pub proof fn lemma_frames_inside_usable_regions(regions: Seq<MemoryRegion>, k: int)
    requires
        0 <= k < usable_frames(regions).len(),
    ensures
        usable_frames(regions)[k] % 4096 == 0,
        exists|j: int|
            0 <= j < regions.len() && regions[j].kind == MemoryRegionKind::Usable
                && regions[j].start <= usable_frames(regions)[k] && usable_frames(regions)[k] + 4096
                <= regions[j].end,
    decreases regions.len(),
{
    let head = region_frames(regions[0]);
    let rest = regions.drop_first();
    assert(usable_frames(regions) == head + usable_frames(rest));
    lemma_region_frames(regions[0]);
    if k < head.len() {
        assert(usable_frames(regions)[k] == head[k]);
        assert(regions[0].kind == MemoryRegionKind::Usable);
    } else {
        assert(usable_frames(regions)[k] == usable_frames(rest)[k - head.len()]);
        lemma_frames_inside_usable_regions(rest, k - head.len());
        let j = choose|j: int|
            0 <= j < rest.len() && rest[j].kind == MemoryRegionKind::Usable && rest[j].start
                <= usable_frames(rest)[k - head.len()] && usable_frames(rest)[k - head.len()] + 4096
                <= rest[j].end;
        assert(regions[j + 1] == rest[j]);
    }
}

/// No two usable regions of the map overlap, in whatever order they come.
pub open spec fn regions_disjoint(regions: Seq<MemoryRegion>) -> bool {
    forall|i: int, j: int|
        0 <= i < regions.len() && 0 <= j < regions.len() && i != j && regions[i].kind
            == MemoryRegionKind::Usable && regions[j].kind == MemoryRegionKind::Usable ==> regions[i].end
            <= regions[j].start || regions[j].end <= regions[i].start
}

/// A memory map whose usable regions do not overlap, listed in any order,
/// offers no frame twice, so the allocator never hands out a frame twice.
pub proof fn lemma_frames_distinct(regions: Seq<MemoryRegion>)
    requires
        regions_disjoint(regions),
    ensures
        usable_frames(regions).no_duplicates(),
    decreases regions.len(),
{
    if regions.len() > 0 {
        let rest = regions.drop_first();
        let head = region_frames(regions[0]);
        let all = usable_frames(regions);
        assert(regions_disjoint(rest)) by {
            assert forall|i: int, j: int|
                0 <= i < rest.len() && 0 <= j < rest.len() && i != j && rest[i].kind
                    == MemoryRegionKind::Usable && rest[j].kind
                    == MemoryRegionKind::Usable implies rest[i].end <= rest[j].start || rest[j].end
                <= rest[i].start by {
                assert(rest[i] == regions[i + 1] && rest[j] == regions[j + 1]);
            }
        }
        lemma_frames_distinct(rest);
        lemma_region_frames(regions[0]);
        assert(all == head + usable_frames(rest));
        assert forall|a: int, b: int| 0 <= a < all.len() && 0 <= b < all.len() && a != b implies all[a]
            != all[b] by {
            if a < head.len() && b < head.len() {
                if a > b {
                    assert(head[b] < head[a]);
                } else {
                    assert(head[a] < head[b]);
                }
            } else if a >= head.len() && b >= head.len() {
                assert(all[a] == usable_frames(rest)[a - head.len()]);
                assert(all[b] == usable_frames(rest)[b - head.len()]);
            } else {
                let (h, t) = if a < head.len() { (a, b) } else { (b, a) };
                assert(all[h] == head[h]);
                assert(all[t] == usable_frames(rest)[t - head.len()]);
                assert(regions[0].kind == MemoryRegionKind::Usable);
                lemma_frames_inside_usable_regions(rest, t - head.len());
                let j = choose|j: int|
                    0 <= j < rest.len() && rest[j].kind == MemoryRegionKind::Usable && rest[j].start
                        <= usable_frames(rest)[t - head.len()] && usable_frames(rest)[t - head.len()]
                        + 4096 <= rest[j].end;
                assert(rest[j] == regions[j + 1]);
                assert(regions[0].end <= regions[j + 1].start || regions[j + 1].end <= regions[0].start);
            }
        }
    }
}

/// Over an ascending memory map, the next frame the allocator hands out lies
/// above every frame it has handed out before; a higher region is reached
/// only once every frame of the lower ones is gone.
pub proof fn lemma_next_frame_above_earlier(a: &BootInfoFrameAllocator)
    requires
        a.wf(),
        regions_ascending(a.regions()),
        a.handed_out() < usable_frames(a.regions()).len(),
    ensures
        forall|i: int|
            0 <= i < a.handed_out() ==> #[trigger] usable_frames(a.regions())[i] < usable_frames(
                a.regions(),
            )[a.handed_out() as int],
{
    lemma_frames_ascending(a.regions());
}

/// The frames of two region lists laid end to end are the frames of the
/// first followed by the frames of the second.
proof fn lemma_usable_frames_append(a: Seq<MemoryRegion>, b: Seq<MemoryRegion>)
    ensures
        usable_frames(a + b) == usable_frames(a) + usable_frames(b),
    decreases a.len(),
{
    if a.len() == 0 {
        assert(a + b =~= b);
        assert(usable_frames(a) + usable_frames(b) =~= usable_frames(b));
    } else {
        assert((a + b).drop_first() =~= a.drop_first() + b);
        lemma_usable_frames_append(a.drop_first(), b);
        assert(usable_frames(a + b) =~= usable_frames(a) + usable_frames(b));
    }
}

/// Splitting the region list at `i` splits its frames at the same place.
proof fn lemma_usable_frames_split(regions: Seq<MemoryRegion>, i: int)
    requires
        0 <= i < regions.len(),
    ensures
        usable_frames(regions.subrange(0, i + 1)) == usable_frames(regions.subrange(0, i))
            + region_frames(regions[i]),
        usable_frames(regions.subrange(i, regions.len() as int)) == region_frames(regions[i])
            + usable_frames(regions.subrange(i + 1, regions.len() as int)),
{
    let one = seq![regions[i]];
    assert(one.drop_first() =~= Seq::<MemoryRegion>::empty());
    assert(usable_frames(one.drop_first()) == Seq::<u64>::empty());
    assert(one[0] == regions[i]);
    assert(usable_frames(one) =~= region_frames(regions[i]));
    assert(regions.subrange(0, i + 1) =~= regions.subrange(0, i) + one);
    lemma_usable_frames_append(regions.subrange(0, i), one);
    let rest = regions.subrange(i + 1, regions.len() as int);
    assert(regions.subrange(i, regions.len() as int) =~= one + rest);
    lemma_usable_frames_append(one, rest);
}

/// Splitting the region list anywhere splits its frames at the same place.
proof fn lemma_usable_frames_cut(regions: Seq<MemoryRegion>, i: int)
    requires
        0 <= i <= regions.len(),
    ensures
        usable_frames(regions) == usable_frames(regions.subrange(0, i))
            + usable_frames(regions.subrange(i, regions.len() as int)),
{
    assert(regions =~= regions.subrange(0, i) + regions.subrange(i, regions.len() as int));
    lemma_usable_frames_append(regions.subrange(0, i), regions.subrange(i, regions.len() as int));
}

} // verus!
