//! Implements the x86_64 physical memory model.
//!
//! # The physical memory model
//! The model mainly describes ownership semantics of page frames. An entity
//! that owns a page frame is responsible for freeing it once it is not needed
//! anymore; freeing means returning ownership to the physical memory
//! allocator.
//!
//! ## Types of page frames
//! Page frames are separated into different types, each with different
//! ownership semantics. If more than one type would apply, the first matching
//! rule wins — see [`spec_classify`] for the fixed order.
//!
//! ## Ownership of page frames
//! - In-transit frames are owned by the value holding them before placement.
//! - Unallocated frames are owned by the physical memory allocator.
//! - Top-level page table frames are owned by the address space they belong
//!   to.
//! - Kernel memory frames are owned by the part of the kernel responsible for
//!   that memory.
//! - Shared memory frames are owned jointly by their referencing page tables;
//!   once they cease to be shared, the last remaining referencer gains
//!   exclusive ownership and their type changes to normal memory.
//! - Normal memory frames are owned by the single page table referencing
//!   them.

use vstd::prelude::*;

use crate::memory::PhysicalAddress;

verus! {

/// The size of one page frame in bytes.
pub const FRAME_BYTES: u64 = 0x1000;

/// One more than the largest frame number: physical addresses fit 52 bits, so
/// frame numbers fit 40.
pub const FRAME_NUMBER_LIMIT: u64 = 0x100_0000_0000;

/// A fixed-size unit of physical memory, identified by its frame number.
#[derive(Debug, PartialEq, Eq, Structural, Clone, Copy)]
pub struct PageFrame {
    /// The frame number; the frame starts at `number * FRAME_BYTES`.
    pub number: u64,
}

impl PageFrame {
    /// The frame number designates a frame inside the physical address space.
    pub open spec fn wf(&self) -> bool {
        self.number < FRAME_NUMBER_LIMIT
    }

    /// The physical address at which this frame starts.
    pub fn start_address(&self) -> (address: PhysicalAddress)
        requires
            self.wf(),
        ensures
            address.0 == self.number * FRAME_BYTES,
    {
        PhysicalAddress(self.number * FRAME_BYTES)
    }

    /// The size of this frame in bytes.
    pub fn size(&self) -> (bytes: u64)
        ensures
            bytes == FRAME_BYTES,
    {
        FRAME_BYTES
    }
}

/// A contiguous run of page frames, from `start` up to but excluding `end`.
#[derive(Debug, PartialEq, Eq, Structural, Clone, Copy)]
pub struct PhysicalFrameRange {
    /// The first frame of the run.
    pub start: PageFrame,
    /// The first frame past the run.
    pub end: PageFrame,
}

impl PhysicalFrameRange {
    /// The run lies inside the physical address space and does not run
    /// backwards. Every frame it covers is a well-formed frame; the start of
    /// an empty run may sit just past the last frame number.
    pub open spec fn wf(&self) -> bool {
        self.start.number <= self.end.number && self.end.number <= FRAME_NUMBER_LIMIT
    }

    /// How many frames the run covers.
    pub open spec fn spec_len(&self) -> int {
        self.end.number - self.start.number
    }

    /// Whether the run covers the frame with this number.
    pub open spec fn spec_contains(&self, number: u64) -> bool {
        self.start.number <= number < self.end.number
    }

    /// The frame numbers the run covers, as a set.
    pub open spec fn spec_frame_set(&self) -> Set<u64> {
        Set::new(|number: u64| self.spec_contains(number))
    }

    /// How many frames the run covers.
    pub fn len(&self) -> (frames: u64)
        requires
            self.wf(),
        ensures
            frames == self.spec_len(),
    {
        self.end.number - self.start.number
    }
}

/// The classification of a page frame, derived from its references rather
/// than stored anywhere.
#[derive(Debug, PartialEq, Eq, Structural, Clone, Copy)]
pub enum FrameType {
    /// Allocated, but not yet assigned anywhere; should be very short lived.
    InTransit,
    /// Not being used, and therefore not referenced in any page table.
    Unallocated,
    /// A top-level page table frame of some address space.
    TopLevelPageTable,
    /// A frame whose references carry the global bit.
    KernelMemory,
    /// A frame whose references carry the shared bit.
    SharedMemory,
    /// Any other frame.
    NormalMemory,
}

/// The facts about one frame that classification reads: its in-transit
/// status, its presence in the allocator's free set, its role as a top-level
/// table, and the global and shared bits of the references to it.
#[derive(Debug, PartialEq, Eq, Structural, Clone, Copy)]
pub struct FrameReferences {
    /// The frame was allocated but not yet assigned anywhere.
    pub in_transit: bool,
    /// The frame sits in the allocator's free set.
    pub unallocated: bool,
    /// The frame is the top-level page table of an address space.
    pub top_level_table: bool,
    /// References to the frame carry the global bit.
    pub global: bool,
    /// References to the frame carry the shared bit.
    pub shared: bool,
}

/// The frame type these references give, applying the fixed precedence: the
/// first matching rule in the order in-transit, unallocated, top-level table,
/// kernel (global bit), shared, normal wins, even if a later rule would also
/// match.
pub open spec fn spec_classify(references: FrameReferences) -> FrameType {
    if references.in_transit {
        FrameType::InTransit
    } else if references.unallocated {
        FrameType::Unallocated
    } else if references.top_level_table {
        FrameType::TopLevelPageTable
    } else if references.global {
        FrameType::KernelMemory
    } else if references.shared {
        FrameType::SharedMemory
    } else {
        FrameType::NormalMemory
    }
}

/// Classifies a frame from its references. The classification has no side
/// effects and is deterministic: it is exactly [`spec_classify`].
pub fn classify(references: &FrameReferences) -> (frame_type: FrameType)
    ensures
        frame_type == spec_classify(*references),
{
    if references.in_transit {
        FrameType::InTransit
    } else if references.unallocated {
        FrameType::Unallocated
    } else if references.top_level_table {
        FrameType::TopLevelPageTable
    } else if references.global {
        FrameType::KernelMemory
    } else if references.shared {
        FrameType::SharedMemory
    } else {
        FrameType::NormalMemory
    }
}

/// Frame precedence: a frame eligible for both kernel memory (global bit)
/// and shared memory (shared bit) classifies as kernel memory.
pub proof fn lemma_kernel_beats_shared(references: FrameReferences)
    requires
        references.global,
        references.shared,
        !references.in_transit,
        !references.unallocated,
        !references.top_level_table,
    ensures
        spec_classify(references) == FrameType::KernelMemory,
{
}

/// Frame precedence: a frame eligible for unallocated and for any category
/// below it classifies as unallocated, whatever the other bits say. Only the
/// in-transit state, which precedes everything, is excluded here.
pub proof fn lemma_unallocated_beats_referenced(references: FrameReferences)
    requires
        references.unallocated,
        !references.in_transit,
    ensures
        spec_classify(references) == FrameType::Unallocated,
{
}

/// The sharing state of one frame: whether the references to it carry the
/// shared bit, and how many page tables reference it.
#[derive(Debug, PartialEq, Eq, Structural, Clone, Copy)]
pub struct SharedFrameState {
    /// References to the frame carry the shared bit.
    pub shared: bool,
    /// How many page tables reference the frame.
    pub references: u64,
}

impl SharedFrameState {
    /// A frame is shared exactly while at least two page tables reference it.
    pub open spec fn wf(&self) -> bool {
        self.shared <==> self.references >= 2
    }

    /// Frees one reference to a shared frame: the entity performing the free
    /// decrements the reference count, and when the count reaches one it
    /// clears the shared bit and transfers the frame to the sole remaining
    /// referencer as normal memory. Returns whether that transfer happened.
    pub fn free_shared_reference(&mut self) -> (transferred: bool)
        requires
            old(self).wf(),
            old(self).shared,
        ensures
            final(self).wf(),
            final(self).references == old(self).references - 1,
            transferred == (old(self).references == 2),
            final(self).shared == (old(self).references > 2),
    {
        self.references = self.references - 1;
        if self.references == 1 {
            self.shared = false;
            true
        } else {
            false
        }
    }
}

/// Shared-frame transition: freeing a reference of a shared frame transfers
/// ownership exactly when the count steps from two to one — a step from
/// three to two transfers nothing — and after a transfer the frame is no
/// longer shared, so within one sharing episode no second transfer can ever
/// follow.
pub proof fn lemma_single_ownership_transfer(
    before: SharedFrameState,
    after: SharedFrameState,
    transferred: bool,
)
    requires
        before.wf(),
        before.shared,
        after.references == before.references - 1,
        transferred == (before.references == 2),
        after.shared == (before.references > 2),
    ensures
        transferred <==> after.references == 1,
        transferred ==> !after.shared,
        !transferred ==> after.shared && after.references >= 2,
{
}

/// An interface for reading and writing physical memory through a specific
/// access method, such as an identity-mapped window.
///
/// An access method may become invalid as initialization progresses to
/// further stages; every access therefore demands that the method is still
/// valid. Beyond that demand nothing detects misuse at run time: an
/// implementation turns the physical address into a raw access, and using it
/// outside its validity window is undefined behavior.
pub trait PhysicalMemoryAccessor: Sized {
    /// Whether this access method is still valid.
    spec fn valid(&self) -> bool;

    /// Reads the raw word at the given physical address.
    fn read(&self, address: PhysicalAddress) -> u64
        requires
            self.valid(),
    ;

    /// Writes the raw word at the given physical address.
    fn write(&mut self, address: PhysicalAddress, val: u64)
        requires
            old(self).valid(),
        ensures
            final(self).valid(),
    ;
}

/// An interface for allocating physical page frames, implemented by the
/// memory-management layers above this model.
pub trait FrameAllocator: Sized {
    /// The allocator's internal invariant.
    spec fn wf(&self) -> bool;

    /// The frame numbers currently free in this allocator.
    spec fn free_frames(&self) -> Set<u64>;

    /// Attempts to allocate a frame.
    ///
    /// This method returns `None` only if there are no frames left.
    fn allocate(&mut self) -> (frame: Option<PageFrame>)
        requires
            old(self).wf(),
        ensures
            final(self).wf(),
            match frame {
                Some(f) => f.wf() && old(self).free_frames().contains(f.number)
                    && final(self).free_frames() == old(self).free_frames().remove(f.number),
                None => old(self).free_frames().is_empty() && final(self).free_frames() == old(
                    self,
                ).free_frames(),
            },
    ;

    /// Attempts to allocate a contiguous range of `num` frames.
    ///
    /// This returns `None` only if there are no frames left: from a non-empty
    /// pool it returns at least one frame, and it never returns more than
    /// `num` frames nor a frame the allocator did not hold. Should the
    /// allocator hold only runs of fewer than `num` frames, it returns a
    /// smaller run rather than failing outright; an allocator with no notion
    /// of contiguity returns single frames as ranges of one.
    fn allocate_range(&mut self, num: usize) -> (range: Option<PhysicalFrameRange>)
        requires
            old(self).wf(),
            num >= 1,
        ensures
            final(self).wf(),
            match range {
                Some(r) => r.wf() && 1 <= r.spec_len() <= num && (forall|n: u64|
                    r.spec_contains(n) ==> old(self).free_frames().contains(n))
                    && final(self).free_frames() == old(self).free_frames().difference(
                    r.spec_frame_set(),
                ),
                None => old(self).free_frames().is_empty() && final(self).free_frames() == old(
                    self,
                ).free_frames(),
            },
    {
        match self.allocate() {
            Some(frame) => {
                let end = PageFrame { number: frame.number + 1 };
                let range = PhysicalFrameRange { start: frame, end };
                proof {
                    assert(final(self).free_frames() =~= old(self).free_frames().difference(
                        range.spec_frame_set(),
                    ));
                }
                Some(range)
            },
            None => None,
        }
    }
}

/// A frame allocator over an explicit free list, with no notion of
/// contiguity: frames come back one at a time, from the end of the list.
///
/// Its ranges come from the default [`FrameAllocator::allocate_range`]:
/// single frames as ranges of one.
pub struct FreeListFrameAllocator {
    /// The free frame numbers, each listed once.
    free: Vec<u64>,
}

impl FreeListFrameAllocator {
    /// The free frame numbers, in list order.
    pub closed spec fn spec_free_list(&self) -> Seq<u64> {
        self.free@
    }

    /// An allocator holding exactly the given free frames.
    pub fn new(free: Vec<u64>) -> (allocator: FreeListFrameAllocator)
        requires
            forall|i: int, j: int| 0 <= i < j < free@.len() ==> free@[i] != free@[j],
            forall|i: int| 0 <= i < free@.len() ==> free@[i] < FRAME_NUMBER_LIMIT,
        ensures
            allocator.wf(),
            allocator.free_frames() == free@.to_set(),
    {
        FreeListFrameAllocator { free }
    }
}

impl FrameAllocator for FreeListFrameAllocator {
    open spec fn wf(&self) -> bool {
        &&& forall|i: int, j: int|
            0 <= i < j < self.spec_free_list().len() ==> self.spec_free_list()[i]
                != self.spec_free_list()[j]
        &&& forall|i: int|
            0 <= i < self.spec_free_list().len() ==> self.spec_free_list()[i]
                < FRAME_NUMBER_LIMIT
    }

    open spec fn free_frames(&self) -> Set<u64> {
        self.spec_free_list().to_set()
    }

    fn allocate(&mut self) -> (frame: Option<PageFrame>) {
        let ghost list_before = self.free@;
        match self.free.pop() {
            Some(number) => {
                proof {
                    let last = list_before.len() - 1;
                    assert(old(self).spec_free_list() == list_before);
                    assert(old(self).spec_free_list()[last] == number);
                    assert(list_before.contains(number));
                    assert(number < FRAME_NUMBER_LIMIT);
                    assert forall|n: u64|
                        self.free_frames().contains(n) == old(self).free_frames().remove(
                            number,
                        ).contains(n) by {
                        if self.free@.contains(n) {
                            let i = choose|i: int|
                                0 <= i < self.free@.len() && self.free@[i] == n;
                            assert(list_before[i] == n);
                            assert(list_before[last] == number);
                        }
                        if list_before.contains(n) && n != number {
                            let i = choose|i: int|
                                0 <= i < list_before.len() && list_before[i] == n;
                            assert(i != last);
                            assert(self.free@[i] == n);
                        }
                    }
                    assert(self.free_frames() =~= old(self).free_frames().remove(number));
                }
                Some(PageFrame { number })
            },
            None => {
                proof {
                    assert(self.free_frames() =~= Set::<u64>::empty());
                }
                None
            },
        }
    }
}

/// A frame allocator over a single contiguous run of free frames, handing
/// them out from the low end.
#[derive(Debug, PartialEq, Eq, Structural, Clone, Copy)]
pub struct RangeFrameAllocator {
    /// The frames still free, as one contiguous run.
    free: PhysicalFrameRange,
}

impl RangeFrameAllocator {
    /// The run of frames still free.
    pub closed spec fn spec_free_range(&self) -> PhysicalFrameRange {
        self.free
    }

    /// An allocator holding exactly the given run of free frames.
    pub fn new(free: PhysicalFrameRange) -> (allocator: RangeFrameAllocator)
        requires
            free.wf(),
        ensures
            allocator.wf(),
            allocator.spec_free_range() == free,
            allocator.free_frames() == free.spec_frame_set(),
    {
        RangeFrameAllocator { free }
    }
}

impl FrameAllocator for RangeFrameAllocator {
    open spec fn wf(&self) -> bool {
        self.spec_free_range().wf()
    }

    open spec fn free_frames(&self) -> Set<u64> {
        self.spec_free_range().spec_frame_set()
    }

    fn allocate(&mut self) -> (frame: Option<PageFrame>) {
        if self.free.start.number < self.free.end.number {
            let frame = self.free.start;
            self.free.start = PageFrame { number: frame.number + 1 };
            proof {
                assert(self.free_frames() =~= old(self).free_frames().remove(frame.number));
            }
            Some(frame)
        } else {
            proof {
                assert(self.free_frames() =~= Set::<u64>::empty());
            }
            None
        }
    }

    fn allocate_range(&mut self, num: usize) -> (range: Option<PhysicalFrameRange>)
        ensures
            match range {
                Some(r) => r.spec_len() == (if num <= old(self).spec_free_range().spec_len() {
                    num as int
                } else {
                    old(self).spec_free_range().spec_len()
                }),
                None => true,
            },
    {
        let available = self.free.end.number - self.free.start.number;
        if available == 0 {
            proof {
                assert(self.free_frames() =~= Set::<u64>::empty());
            }
            None
        } else {
            let take = if (num as u64) < available {
                num as u64
            } else {
                available
            };
            let start = self.free.start;
            let end = PageFrame { number: start.number + take };
            self.free.start = end;
            let range = PhysicalFrameRange { start, end };
            proof {
                assert(self.free_frames() =~= old(self).free_frames().difference(
                    range.spec_frame_set(),
                ));
            }
            Some(range)
        }
    }
}

} // verus!
