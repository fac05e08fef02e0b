//! The architecture specific parts of the kernel.
//!
//! This module acts as an interface between the individual architecture
//! specific parts and the rest of the kernel. It abstracts over the fact that
//! the kernel may run on different architectures.

use vstd::prelude::*;

pub mod x86_64;

verus! {

/// An abstraction of the underlying architecture.
///
/// Each supported architecture implements this trait on a type which is then
/// used for architecture specific actions: querying and toggling the local
/// interrupt-enable flag, and writing text to every currently valid output
/// sink (the firmware console while firmware services are active, and the
/// always-available serial line).
///
/// Every operation demands that a boot method has already been recorded
/// (`ready`); using the hardware before that point is a kernel bug.
pub trait Architecture: Sized {
    /// Whether a boot method has been recorded, making the hardware usable.
    spec fn ready(&self) -> bool;

    /// Whether interrupts are currently possible on this core.
    spec fn interrupts_on(&self) -> bool;

    /// Whether the firmware console sink still accepts output.
    spec fn console_active(&self) -> bool;

    /// Everything written to the firmware console so far, in order.
    spec fn console_log(&self) -> Seq<Seq<char>>;

    /// Everything transmitted on the serial line so far, in order.
    spec fn serial_log(&self) -> Seq<Seq<char>>;

    /// Writes the text to every currently valid output sink.
    fn write_fmt(&mut self, text: &str)
        requires
            old(self).ready(),
        ensures
            final(self).ready(),
            final(self).interrupts_on() == old(self).interrupts_on(),
            final(self).console_active() == old(self).console_active(),
            final(self).serial_log() == old(self).serial_log().push(text@),
            final(self).console_log() == (if old(self).console_active() {
                old(self).console_log().push(text@)
            } else {
                old(self).console_log()
            }),
    ;

    /// Writes a line break to every currently valid output sink.
    ///
    /// The firmware console expects a carriage return before the line feed;
    /// the serial line takes a bare line feed.
    fn write_line_break(&mut self)
        requires
            old(self).ready(),
        ensures
            final(self).ready(),
            final(self).interrupts_on() == old(self).interrupts_on(),
            final(self).console_active() == old(self).console_active(),
            final(self).serial_log() == old(self).serial_log().push("\n"@),
            final(self).console_log() == (if old(self).console_active() {
                old(self).console_log().push("\r\n"@)
            } else {
                old(self).console_log()
            }),
    ;

    /// Determines if interrupts are currently enabled.
    fn interrupts_enabled(&self) -> (enabled: bool)
        requires
            self.ready(),
        ensures
            enabled == self.interrupts_on(),
    ;

    /// Enables interrupts on this core.
    fn enable_interrupts(&mut self)
        requires
            old(self).ready(),
        ensures
            final(self).ready(),
            final(self).interrupts_on(),
            final(self).console_active() == old(self).console_active(),
            final(self).console_log() == old(self).console_log(),
            final(self).serial_log() == old(self).serial_log(),
    ;

    /// Disables interrupts on this core.
    fn disable_interrupts(&mut self)
        requires
            old(self).ready(),
        ensures
            final(self).ready(),
            !final(self).interrupts_on(),
            final(self).console_active() == old(self).console_active(),
            final(self).console_log() == old(self).console_log(),
            final(self).serial_log() == old(self).serial_log(),
    ;

    /// Disables or enables interrupts depending on the flag passed.
    fn set_interrupts_enabled(&mut self, enable: bool)
        requires
            old(self).ready(),
        ensures
            final(self).ready(),
            final(self).interrupts_on() == enable,
            final(self).console_active() == old(self).console_active(),
            final(self).console_log() == old(self).console_log(),
            final(self).serial_log() == old(self).serial_log(),
    {
        if enable {
            self.enable_interrupts();
        } else {
            self.disable_interrupts();
        }
    }
}

} // verus!
