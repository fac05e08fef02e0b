//! The UEFI specific parts of the kernel: the firmware console sink and the
//! bookkeeping around leaving firmware control.

use vstd::prelude::*;

use crate::arch::Architecture;
use crate::arch::x86_64::{logger, BootPhase, x86_64};
use vstd::arithmetic::mul::lemma_mul_inequality;

verus! {

/// The firmware's region type for usable, conventional memory.
pub const CONVENTIONAL_MEMORY_TYPE: u32 = 7;

/// The size of one memory page in bytes.
pub const PAGE_BYTES: u64 = 0x1000;

/// One entry of the firmware memory map: a region type and the number of
/// pages the region covers.
#[derive(Debug, PartialEq, Eq, Structural, Clone, Copy)]
pub struct MemoryMapEntry {
    /// The firmware's numeric region type.
    pub region_type: u32,
    /// How many pages the region covers.
    pub pages: u64,
}

/// What the firmware memory map amounts to: usable versus total pages.
#[derive(Debug, PartialEq, Eq, Structural, Clone, Copy)]
pub struct MemoryMapSummary {
    /// Pages of conventional, usable memory.
    pub usable_pages: u64,
    /// Pages of any region type.
    pub total_pages: u64,
}

/// The total number of pages over all entries.
pub open spec fn spec_total_pages(entries: Seq<MemoryMapEntry>) -> int
    decreases entries.len(),
{
    if entries.len() == 0 {
        0
    } else {
        spec_total_pages(entries.drop_last()) + entries.last().pages
    }
}

/// The number of pages in conventional-memory entries.
pub open spec fn spec_usable_pages(entries: Seq<MemoryMapEntry>) -> int
    decreases entries.len(),
{
    if entries.len() == 0 {
        0
    } else {
        spec_usable_pages(entries.drop_last()) + (if entries.last().region_type
            == CONVENTIONAL_MEMORY_TYPE {
            entries.last().pages as int
        } else {
            0
        })
    }
}

/// Page counts are sums of non-negative quantities, and the usable pages are
/// among the total pages.
pub proof fn lemma_usable_le_total(entries: Seq<MemoryMapEntry>)
    ensures
        0 <= spec_usable_pages(entries) <= spec_total_pages(entries),
    decreases entries.len(),
{
    if entries.len() > 0 {
        lemma_usable_le_total(entries.drop_last());
    }
}

/// The page count of a prefix never exceeds the page count of the whole map.
proof fn lemma_total_pages_prefix_le(entries: Seq<MemoryMapEntry>, i: int)
    requires
        0 <= i <= entries.len(),
    ensures
        spec_total_pages(entries.subrange(0, i)) <= spec_total_pages(entries),
    decreases entries.len() - i,
{
    if i == entries.len() {
        assert(entries.subrange(0, i) =~= entries);
    } else {
        assert(entries.subrange(0, i + 1).drop_last() =~= entries.subrange(0, i));
        assert(entries.subrange(0, i + 1).last() == entries[i]);
        lemma_total_pages_prefix_le(entries, i + 1);
    }
}

/// Partitions the memory map by region type and counts usable versus total
/// pages.
pub fn summarize_memory_map(entries: &Vec<MemoryMapEntry>) -> (summary: MemoryMapSummary)
    requires
        spec_total_pages(entries@) <= u64::MAX,
    ensures
        summary.usable_pages == spec_usable_pages(entries@),
        summary.total_pages == spec_total_pages(entries@),
{
    let mut usable_pages: u64 = 0;
    let mut total_pages: u64 = 0;
    let mut i: usize = 0;

    while i < entries.len()
        invariant
            0 <= i <= entries.len(),
            spec_total_pages(entries@) <= u64::MAX,
            usable_pages == spec_usable_pages(entries@.subrange(0, i as int)),
            total_pages == spec_total_pages(entries@.subrange(0, i as int)),
            usable_pages <= total_pages,
        decreases entries.len() - i,
    {
        let entry = entries[i];
        proof {
            assert(entries@.subrange(0, i + 1).drop_last() =~= entries@.subrange(0, i as int));
            assert(entries@.subrange(0, i + 1).last() == entries@[i as int]);
            lemma_total_pages_prefix_le(entries@, i + 1);
        }
        if entry.region_type == CONVENTIONAL_MEMORY_TYPE {
            usable_pages = usable_pages + entry.pages;
        }
        total_pages = total_pages + entry.pages;
        i = i + 1;
    }
    proof {
        assert(entries@.subrange(0, entries@.len() as int) =~= entries@);
    }
    MemoryMapSummary { usable_pages, total_pages }
}

/// The name of what `size_format::SizeFormatterBinary` renders for a byte
/// count: the quantity scaled to the largest fitting binary prefix, such as
/// `42.0Mi` for `42 * 1024 * 1024`.
pub uninterp spec fn binary_size_text(bytes: u64) -> Seq<char>;

/// Relies on `size_format::SizeFormatterBinary`: its `Display` output is a
/// pure function of the byte count alone.
#[verifier::external_body]
fn format_binary_size(bytes: u64) -> (text: String)
    ensures
        text@ == binary_size_text(bytes),
{
    format!("{}", size_format::SizeFormatterBinary::new(bytes))
}

/// The human-readable account of the memory map, as one line of text.
pub open spec fn spec_memory_report_line(usable_bytes: u64, total_bytes: u64) -> Seq<char> {
    "The usable amount of memory is "@ + binary_size_text(usable_bytes)
        + "B, the total amount of memory is "@ + binary_size_text(total_bytes) + "B."@
}

/// Renders the memory summary as a human-readable line.
pub fn memory_report_line(summary: &MemoryMapSummary) -> (line: String)
    requires
        summary.usable_pages * PAGE_BYTES <= u64::MAX,
        summary.total_pages * PAGE_BYTES <= u64::MAX,
    ensures
        line@ == spec_memory_report_line(
            (summary.usable_pages * PAGE_BYTES) as u64,
            (summary.total_pages * PAGE_BYTES) as u64,
        ),
{
    let usable = format_binary_size(summary.usable_pages * PAGE_BYTES);
    let total = format_binary_size(summary.total_pages * PAGE_BYTES);
    let mut line = String::from_str("The usable amount of memory is ");
    line.append(usable.as_str());
    line.append("B, the total amount of memory is ");
    line.append(total.as_str());
    line.append("B.");
    proof {
        assert(line@ =~= spec_memory_report_line(
            (summary.usable_pages * PAGE_BYTES) as u64,
            (summary.total_pages * PAGE_BYTES) as u64,
        ));
    }
    line
}

/// Books the successful exit from firmware boot services: the lifecycle moves
/// to `ServicesInactive` — from here on the firmware console is off limits —
/// and the final memory map handed back by the firmware is summarized and
/// reported on the serial line.
///
/// A failure of the exit call itself never reaches this function: the
/// firmware state is then unknown and the platform layer halts instead.
pub fn record_boot_services_exit(machine: &mut x86_64, entries: &Vec<MemoryMapEntry>) -> (summary:
    MemoryMapSummary)
    requires
        old(machine).ready(),
        old(machine).phase is ServicesActive,
        spec_total_pages(entries@) * PAGE_BYTES <= u64::MAX,
    ensures
        final(machine).ready(),
        final(machine).phase is ServicesInactive,
        !final(machine).console_active(),
        summary.usable_pages == spec_usable_pages(entries@),
        summary.total_pages == spec_total_pages(entries@),
        final(machine).serial_log() == old(machine).serial_log() + logger::spec_serial_records(
            logger::Level::Info,
            spec_memory_report_line(
                (summary.usable_pages * PAGE_BYTES) as u64,
                (summary.total_pages * PAGE_BYTES) as u64,
            ),
        ),
        final(machine).console_log() == old(machine).console_log(),
        final(machine).interrupts_on() == old(machine).interrupts_on(),
        final(machine).boot_method == old(machine).boot_method,
{
    machine.deactivate_firmware_services();

    proof {
        lemma_usable_le_total(entries@);
        lemma_mul_inequality(
            spec_usable_pages(entries@),
            spec_total_pages(entries@),
            PAGE_BYTES as int,
        );
    }
    let summary = summarize_memory_map(entries);
    let line = memory_report_line(&summary);
    let logger = logger::KernelLogger;
    logger.log(machine, logger::Level::Info, line.as_str());
    summary
}

/// Hands the text to the firmware console.
///
/// The console belongs to the firmware: it accepts output only while firmware
/// services are active. Once they have been exited the device may be unmapped,
/// so the write becomes a no-op instead of touching it.
pub fn write_fmt(machine: &mut x86_64, text: &str)
    requires
        old(machine).ready(),
    ensures
        final(machine).ready(),
        final(machine).console_log() == (if old(machine).console_active() {
            old(machine).console_log().push(text@)
        } else {
            old(machine).console_log()
        }),
        final(machine).serial_log() == old(machine).serial_log(),
        final(machine).interrupts == old(machine).interrupts,
        final(machine).phase == old(machine).phase,
        final(machine).boot_method == old(machine).boot_method,
{
    match machine.phase {
        BootPhase::ServicesActive => {
            let line: String = text.to_owned();
            machine.console_output.push(line);
            proof {
                assert(machine.console_log() =~= old(machine).console_log().push(text@));
            }
        },
        _ => {},
    }
}

} // verus!
