//! Tests for the address wrappers, the firmware memory map accounting, and
//! the physical frame model.

use beetle_core::arch::x86_64::memory::physical::{
    classify, FrameAllocator, FrameReferences, FrameType, FreeListFrameAllocator, PageFrame,
    PhysicalFrameRange,
    RangeFrameAllocator, SharedFrameState,
};
use beetle_core::arch::x86_64::uefi::{
    memory_report_line, record_boot_services_exit, summarize_memory_map, MemoryMapEntry,
    MemoryMapSummary, CONVENTIONAL_MEMORY_TYPE,
};
use beetle_core::arch::x86_64::{x86_64, BootMethod, BootPhase};
use beetle_core::memory::{PhysicalAddress, VirtualAddress};

fn frame(number: u64) -> PageFrame {
    PageFrame { number }
}

fn run(start: u64, end: u64) -> PhysicalFrameRange {
    PhysicalFrameRange { start: frame(start), end: frame(end) }
}

fn references(
    in_transit: bool,
    unallocated: bool,
    top_level_table: bool,
    global: bool,
    shared: bool,
) -> FrameReferences {
    FrameReferences { in_transit, unallocated, top_level_table, global, shared }
}

#[test]
fn address_wrappers_expose_their_raw_value() {
    let physical = PhysicalAddress(0x1000);
    let virtual_address = VirtualAddress(0xffff_8000_0000_0000);
    assert_eq!(physical.into(), 0x1000u64);
    assert_eq!(virtual_address.into(), 0xffff_8000_0000_0000u64);
    assert_eq!(physical, PhysicalAddress(0x1000));
    assert_ne!(physical, PhysicalAddress(0x2000));
}

#[test]
fn frame_geometry() {
    let f = frame(3);
    assert_eq!(f.start_address(), PhysicalAddress(3 * 0x1000));
    assert_eq!(f.size(), 0x1000);
    assert_eq!(run(10, 15).len(), 5);
}

#[test]
fn classification_follows_the_reference_bits() {
    assert_eq!(classify(&references(true, false, false, false, false)), FrameType::InTransit);
    assert_eq!(classify(&references(false, true, false, false, false)), FrameType::Unallocated);
    assert_eq!(
        classify(&references(false, false, true, false, false)),
        FrameType::TopLevelPageTable
    );
    assert_eq!(classify(&references(false, false, false, true, false)), FrameType::KernelMemory);
    assert_eq!(classify(&references(false, false, false, false, true)), FrameType::SharedMemory);
    assert_eq!(classify(&references(false, false, false, false, false)), FrameType::NormalMemory);
}

#[test]
fn classification_precedence_kernel_beats_shared() {
    // A frame eligible for kernel memory (global bit) and shared memory
    // (shared bit) at once classifies as kernel memory.
    assert_eq!(classify(&references(false, false, false, true, true)), FrameType::KernelMemory);
}

#[test]
fn classification_precedence_unallocated_beats_later_categories() {
    // A frame eligible for unallocated and any later category classifies as
    // unallocated.
    assert_eq!(classify(&references(false, true, true, true, true)), FrameType::Unallocated);
    assert_eq!(classify(&references(false, true, false, false, true)), FrameType::Unallocated);
}

#[test]
fn shared_frame_two_to_one_transfers_exactly_once() {
    let mut state = SharedFrameState { shared: true, references: 2 };
    let transferred = state.free_shared_reference();
    // The 2 -> 1 step clears the shared bit and transfers ownership, once.
    assert!(transferred);
    assert!(!state.shared);
    assert_eq!(state.references, 1);
}

#[test]
fn shared_frame_three_to_two_transfers_nothing() {
    let mut state = SharedFrameState { shared: true, references: 3 };
    let transferred = state.free_shared_reference();
    assert!(!transferred);
    assert!(state.shared);
    assert_eq!(state.references, 2);

    // The following free ends the sharing episode.
    assert!(state.free_shared_reference());
    assert!(!state.shared);
    assert_eq!(state.references, 1);
}

#[test]
fn range_allocation_degrades_to_largest_available_run() {
    // An allocator holding only a contiguous run of 5 frames.
    let mut allocator = RangeFrameAllocator::new(run(100, 105));

    // Requesting 8 frames returns a range of exactly 5 frames: never 0 from
    // a non-empty pool, never more than requested.
    let range = allocator.allocate_range(8).expect("non-empty pool must yield frames");
    assert_eq!(range.len(), 5);
    assert_eq!(range.start, frame(100));
    assert_eq!(range.end, frame(105));

    // The pool is exhausted now.
    assert!(allocator.allocate_range(1).is_none());
    assert!(allocator.allocate().is_none());
}

#[test]
fn range_allocation_prefers_exactly_the_requested_count() {
    let mut allocator = RangeFrameAllocator::new(run(7, 64));
    let range = allocator.allocate_range(8).unwrap();
    assert_eq!(range.len(), 8);
    assert_eq!(range.start, frame(7));
    assert_eq!(range.end, frame(15));

    let single = allocator.allocate().unwrap();
    assert_eq!(single, frame(15));
}

#[test]
fn free_list_allocator_hands_out_single_frames() {
    let mut allocator = FreeListFrameAllocator::new(vec![8, 3, 5]);

    // No notion of contiguity: the default range allocation degrades to
    // single-frame ranges.
    let range = allocator.allocate_range(4).expect("non-empty pool must yield frames");
    assert_eq!(range.len(), 1);
    assert_eq!(range.start, frame(5));
    assert_eq!(range.end, frame(6));

    assert_eq!(allocator.allocate(), Some(frame(3)));
    assert_eq!(allocator.allocate(), Some(frame(8)));
    assert!(allocator.allocate().is_none());
    assert!(allocator.allocate_range(1).is_none());
}

#[test]
fn memory_map_partition_counts_usable_versus_total() {
    let entries = vec![
        MemoryMapEntry { region_type: CONVENTIONAL_MEMORY_TYPE, pages: 3 },
        MemoryMapEntry { region_type: 2, pages: 5 },
        MemoryMapEntry { region_type: CONVENTIONAL_MEMORY_TYPE, pages: 1 },
        MemoryMapEntry { region_type: 11, pages: 2 },
    ];
    let summary = summarize_memory_map(&entries);
    assert_eq!(summary, MemoryMapSummary { usable_pages: 4, total_pages: 11 });
}

#[test]
fn memory_report_line_renders_binary_sizes() {
    let summary = MemoryMapSummary { usable_pages: 4, total_pages: 8 };
    let line = memory_report_line(&summary);
    assert_eq!(
        line,
        "The usable amount of memory is 16.0KiB, the total amount of memory is 32.0KiB."
    );
}

#[test]
fn boot_services_exit_commits_phase_and_reports_sizes() {
    let mut machine = x86_64::new(true);
    machine.record_boot_method(BootMethod::Uefi);

    let entries = vec![
        MemoryMapEntry { region_type: CONVENTIONAL_MEMORY_TYPE, pages: 1024 },
        MemoryMapEntry { region_type: 4, pages: 1024 },
    ];
    let summary = record_boot_services_exit(&mut machine, &entries);

    assert_eq!(summary, MemoryMapSummary { usable_pages: 1024, total_pages: 2048 });
    assert_eq!(machine.phase, BootPhase::ServicesInactive);
    // The report goes to the serial sink only: the firmware console is
    // already off limits when the exit is booked.
    assert!(machine.console_output.is_empty());
    assert_eq!(
        machine.serial_output,
        vec![
            "The usable amount of memory is 4.0MiB, the total amount of memory is 8.0MiB.",
            "\n",
            "The usable amount of memory is 4.0MiB, the total amount of memory is 8.0MiB.\n",
        ]
    );
}
