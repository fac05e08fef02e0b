//! This module exposes the type that implements the `Architecture` trait.

use vstd::prelude::*;

use crate::arch::Architecture;
use crate::arch::x86_64::{spec_phase_step, BootMethod, BootPhase};
use crate::arch::x86_64::{serial, uefi};

verus! {

/// The state of the x86_64 platform as far as this kernel core observes it:
/// the local interrupt-enable flag, the boot lifecycle, and a record of
/// everything handed to the two text sinks.
///
/// On hardware the interrupt flag lives in the `RFLAGS` register, the boot
/// lifecycle in a one-time-written global, and the sinks are the firmware
/// console and the serial port; the unverified platform layer dispatches to
/// those. This type carries the same state as plain values so that every
/// routing and ordering decision made against it is checked.
#[allow(non_camel_case_types)]
pub struct x86_64 {
    /// Whether interrupts are currently possible on this core.
    pub interrupts: bool,
    /// Where in the boot lifecycle the machine stands.
    pub phase: BootPhase,
    /// The boot method, recorded exactly once.
    pub boot_method: Option<BootMethod>,
    /// Everything written to the firmware console, in order.
    pub console_output: Vec<String>,
    /// Everything transmitted on the serial line, in order.
    pub serial_output: Vec<String>,
}

impl x86_64 {
    /// A boot method is recorded if and only if the lifecycle has left
    /// `Uninitialized`.
    pub open spec fn wf(&self) -> bool {
        self.boot_method is Some <==> !(self.phase is Uninitialized)
    }

    /// A machine fresh out of firmware control: nothing recorded yet.
    pub fn new(interrupts: bool) -> (machine: x86_64)
        ensures
            machine.wf(),
            !machine.ready(),
            machine.phase is Uninitialized,
            machine.boot_method is None,
            machine.interrupts == interrupts,
            machine.console_log() == Seq::<Seq<char>>::empty(),
            machine.serial_log() == Seq::<Seq<char>>::empty(),
    {
        let machine = x86_64 {
            interrupts,
            phase: BootPhase::Uninitialized,
            boot_method: None,
            console_output: Vec::new(),
            serial_output: Vec::new(),
        };
        proof {
            assert(machine.console_log() =~= Seq::<Seq<char>>::empty());
            assert(machine.serial_log() =~= Seq::<Seq<char>>::empty());
        }
        machine
    }

    /// Records how the machine was booted. This is the first transition of
    /// the boot lifecycle and must happen exactly once, before any other use
    /// of the hardware.
    pub fn record_boot_method(&mut self, method: BootMethod)
        requires
            old(self).wf(),
            old(self).phase is Uninitialized,
        ensures
            final(self).wf(),
            final(self).ready(),
            final(self).phase is ServicesActive,
            final(self).boot_method == Some(method),
            spec_phase_step(old(self).phase, final(self).phase),
            final(self).interrupts == old(self).interrupts,
            final(self).console_log() == old(self).console_log(),
            final(self).serial_log() == old(self).serial_log(),
    {
        self.boot_method = Some(method);
        self.phase = BootPhase::ServicesActive;
    }

    /// Returns the boot method. Reading it before it was recorded is a fatal
    /// kernel bug, so that state is excluded outright.
    pub fn get_boot_method(&self) -> (method: BootMethod)
        requires
            self.ready(),
        ensures
            self.boot_method == Some(method),
    {
        self.boot_method.unwrap()
    }

    /// Commits the second and final transition of the boot lifecycle: firmware
    /// services are gone, and the firmware console must no longer be touched.
    pub fn deactivate_firmware_services(&mut self)
        requires
            old(self).wf(),
            old(self).phase is ServicesActive,
        ensures
            final(self).wf(),
            final(self).ready(),
            final(self).phase is ServicesInactive,
            !final(self).console_active(),
            final(self).boot_method == old(self).boot_method,
            spec_phase_step(old(self).phase, final(self).phase),
            final(self).interrupts == old(self).interrupts,
            final(self).console_log() == old(self).console_log(),
            final(self).serial_log() == old(self).serial_log(),
    {
        self.phase = BootPhase::ServicesInactive;
    }
}

impl Architecture for x86_64 {
    open spec fn ready(&self) -> bool {
        self.wf() && !(self.phase is Uninitialized)
    }

    open spec fn interrupts_on(&self) -> bool {
        self.interrupts
    }

    open spec fn console_active(&self) -> bool {
        self.phase is ServicesActive
    }

    open spec fn console_log(&self) -> Seq<Seq<char>> {
        self.console_output.deep_view()
    }

    open spec fn serial_log(&self) -> Seq<Seq<char>> {
        self.serial_output.deep_view()
    }

    fn write_fmt(&mut self, text: &str) {
        match self.get_boot_method() {
            BootMethod::Uefi => {
                uefi::write_fmt(self, text);
                serial::write_fmt(self, text);
            },
        }
    }

    fn write_line_break(&mut self) {
        match self.get_boot_method() {
            BootMethod::Uefi => {
                uefi::write_fmt(self, "\r\n");
                serial::write_fmt(self, "\n");
            },
        }
    }

    fn interrupts_enabled(&self) -> (enabled: bool) {
        self.interrupts
    }

    fn enable_interrupts(&mut self) {
        self.interrupts = true;
    }

    fn disable_interrupts(&mut self) {
        self.interrupts = false;
    }
}

} // verus!
