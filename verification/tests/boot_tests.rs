//! Tests for the boot lifecycle, the output routing, the logger, and the
//! early compatibility gate.

use beetle_core::arch::x86_64::logger::{KernelLogger, Level};
use beetle_core::arch::x86_64::{
    evaluate_cpu_compatibility, report_integration_test_exit, serial, uefi, x86_64, BootMethod,
    BootPhase, CpuFeatures, IntegrationTestExitCode,
};
use beetle_core::arch::x86_64::{early_init, report_cpu_identity};
use beetle_core::arch::Architecture;

fn ready_machine() -> x86_64 {
    let mut machine = x86_64::new(true);
    machine.record_boot_method(BootMethod::Uefi);
    machine
}

#[test]
fn boot_phase_sequence_is_monotone() {
    let mut machine = x86_64::new(true);
    assert_eq!(machine.phase, BootPhase::Uninitialized);
    assert!(machine.boot_method.is_none());

    machine.record_boot_method(BootMethod::Uefi);
    assert_eq!(machine.phase, BootPhase::ServicesActive);
    assert_eq!(machine.get_boot_method(), BootMethod::Uefi);

    machine.deactivate_firmware_services();
    assert_eq!(machine.phase, BootPhase::ServicesInactive);
    assert_eq!(machine.get_boot_method(), BootMethod::Uefi);
}

#[test]
fn write_fmt_fans_out_to_both_sinks_while_active() {
    let mut machine = ready_machine();

    machine.write_fmt("hello");
    machine.write_line_break();

    assert_eq!(machine.console_output, vec!["hello", "\r\n"]);
    assert_eq!(machine.serial_output, vec!["hello", "\n"]);
}

#[test]
fn firmware_console_receives_writes_while_active() {
    let mut machine = ready_machine();
    uefi::write_fmt(&mut machine, "early");
    assert_eq!(machine.console_output, vec!["early"]);
    assert!(machine.serial_output.is_empty());
}

#[test]
fn console_writes_are_noops_after_services_exit() {
    let mut machine = ready_machine();
    machine.deactivate_firmware_services();

    machine.write_fmt("late");
    uefi::write_fmt(&mut machine, "later");
    serial::write_fmt(&mut machine, "serial still works");

    // The firmware console sink refuses everything after the exit, while
    // serial writes continue to succeed.
    assert!(machine.console_output.is_empty());
    assert_eq!(machine.serial_output, vec!["late", "serial still works"]);
}

#[test]
fn logger_routes_error_to_both_sinks_with_colored_serial_record() {
    let mut machine = ready_machine();
    let logger = KernelLogger;

    logger.log(&mut machine, Level::Error, "boom");

    assert_eq!(machine.console_output, vec!["boom", "\r\n"]);
    assert_eq!(
        machine.serial_output,
        vec!["boom", "\n", "\x1b[31mERROR\x1b[0m: boom\n"]
    );
}

#[test]
fn logger_routes_warn_with_yellow_serial_record() {
    let mut machine = ready_machine();
    let logger = KernelLogger;

    logger.log(&mut machine, Level::Warn, "odd");

    assert_eq!(machine.console_output, vec!["odd", "\r\n"]);
    assert_eq!(
        machine.serial_output,
        vec!["odd", "\n", "\x1b[33mWARN\x1b[0m: odd\n"]
    );
}

#[test]
fn logger_routes_info_to_both_sinks_plain() {
    let mut machine = ready_machine();
    let logger = KernelLogger;

    logger.log(&mut machine, Level::Info, "news");

    assert_eq!(machine.console_output, vec!["news", "\r\n"]);
    assert_eq!(machine.serial_output, vec!["news", "\n", "news\n"]);
}

#[test]
fn logger_routes_debug_and_trace_to_serial_only() {
    let mut machine = ready_machine();
    let logger = KernelLogger;

    logger.log(&mut machine, Level::Debug, "detail");
    logger.log(&mut machine, Level::Trace, "fine detail");

    assert!(machine.console_output.is_empty());
    assert_eq!(
        machine.serial_output,
        vec![
            "DEBUG\x1b[0m: detail\n",
            "\x1b[90mTRACE\x1b[0m: fine detail\n"
        ]
    );
    assert!(logger.enabled(Level::Trace));
    logger.flush();
}

#[test]
fn compatible_cpu_passes_without_output() {
    let mut machine = ready_machine();
    let features = CpuFeatures { has_apic: true, has_syscall_sysret: true, has_no_execute: true };

    assert!(evaluate_cpu_compatibility(&features, &mut machine));
    assert!(machine.serial_output.is_empty());
    assert!(machine.console_output.is_empty());
}

#[test]
fn each_missing_feature_is_reported_as_fatal_error() {
    let mut machine = ready_machine();
    let features = CpuFeatures { has_apic: false, has_syscall_sysret: true, has_no_execute: false };

    assert!(!evaluate_cpu_compatibility(&features, &mut machine));
    assert_eq!(
        machine.serial_output,
        vec![
            "No APIC found.",
            "\n",
            "\x1b[31mERROR\x1b[0m: No APIC found.\n",
            "NXE bit not supported.",
            "\n",
            "\x1b[31mERROR\x1b[0m: NXE bit not supported.\n",
        ]
    );
    assert_eq!(
        machine.console_output,
        vec!["No APIC found.", "\r\n", "NXE bit not supported.", "\r\n"]
    );
}

#[test]
fn missing_syscall_support_is_reported() {
    let mut machine = ready_machine();
    let features = CpuFeatures { has_apic: true, has_syscall_sysret: false, has_no_execute: true };

    assert!(!evaluate_cpu_compatibility(&features, &mut machine));
    assert_eq!(machine.serial_output[0], "Syscall/sysret not supported.");
}

#[test]
fn cpu_identity_report_line() {
    let mut machine = ready_machine();
    report_cpu_identity(&mut machine, "AcmeCPUs", "Acme 9000");
    assert_eq!(machine.serial_output[0], "Starting BeetleOS on a AcmeCPUs CPU (Model: Acme 9000).");
}

#[test]
fn early_init_report_is_consistent() {
    let mut machine = ready_machine();
    let report = early_init(&mut machine);
    let f = report.features;
    assert_eq!(
        report.compatible,
        f.has_apic && f.has_syscall_sysret && f.has_no_execute
    );
    // The compatibility check leaves the boot lifecycle where it was.
    assert_eq!(machine.phase, BootPhase::ServicesActive);
}

#[test]
fn integration_test_exit_codes() {
    let mut machine = ready_machine();

    let ok = report_integration_test_exit(&IntegrationTestExitCode::Success, &mut machine);
    assert_eq!(ok, 0);
    assert!(machine.serial_output.is_empty());

    let failed = report_integration_test_exit(
        &IntegrationTestExitCode::Failure("assertion failed"),
        &mut machine,
    );
    assert_eq!(failed, 1);
    // The diagnostic reaches the serial sink before the port write that
    // terminates the virtual machine.
    assert_eq!(machine.serial_output, vec!["assertion failed"]);
}
