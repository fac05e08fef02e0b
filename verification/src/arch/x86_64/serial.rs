//! This module handles serial output for the x86_64 architecture.
//!
//! The serial line is the always-available sink: it accepts output in every
//! boot phase, before and after firmware services go away.

use vstd::prelude::*;

use crate::arch::Architecture;
use crate::arch::x86_64::x86_64;

verus! {

/// Hands the text to the serial line.
pub fn write_fmt(machine: &mut x86_64, text: &str)
    ensures
        final(machine).serial_log() == old(machine).serial_log().push(text@),
        final(machine).console_log() == old(machine).console_log(),
        final(machine).interrupts == old(machine).interrupts,
        final(machine).phase == old(machine).phase,
        final(machine).boot_method == old(machine).boot_method,
{
    let line: String = text.to_owned();
    machine.serial_output.push(line);
    proof {
        assert(machine.serial_log() =~= old(machine).serial_log().push(text@));
    }
}

} // verus!
