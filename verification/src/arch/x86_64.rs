//! The x86_64 specific part of the kernel.
//!
//! This holds the boot lifecycle of the platform: how the machine was started,
//! which firmware services are still usable, and the early compatibility gate
//! that every supported processor must pass.

use vstd::prelude::*;

use crate::arch::Architecture;

pub mod architecture_implementation;
pub mod logger;
pub mod memory;
pub mod serial;
pub mod uefi;

pub use architecture_implementation::x86_64;

verus! {

/// The types of methods that the system can be booted with.
#[derive(Debug, PartialEq, Eq, Structural, Clone, Copy)]
pub enum BootMethod {
    /// The system was booted directly by the UEFI firmware.
    Uefi,
}

/// The phases of the boot lifecycle.
///
/// The phase only ever moves forward: `Uninitialized` until the firmware entry
/// point records the boot method, `ServicesActive` while firmware services
/// (including the firmware console) may still be used, and `ServicesInactive`
/// once firmware services have been exited for good.
#[derive(Debug, PartialEq, Eq, Structural, Clone, Copy)]
pub enum BootPhase {
    /// No boot method has been recorded yet.
    Uninitialized,
    /// The boot method is recorded and firmware services are still usable.
    ServicesActive,
    /// Firmware services have been exited; only the serial sink remains valid.
    ServicesInactive,
}

/// The position of a phase in the boot lifecycle.
pub open spec fn spec_phase_index(phase: BootPhase) -> int {
    match phase {
        BootPhase::Uninitialized => 0,
        BootPhase::ServicesActive => 1,
        BootPhase::ServicesInactive => 2,
    }
}

/// The two legal transitions of the boot lifecycle.
pub open spec fn spec_phase_step(from: BootPhase, to: BootPhase) -> bool {
    ||| (from is Uninitialized && to is ServicesActive)
    ||| (from is ServicesActive && to is ServicesInactive)
}

/// Every legal transition moves the phase exactly one position forward.
pub proof fn lemma_phase_step_forward(from: BootPhase, to: BootPhase)
    requires
        spec_phase_step(from, to),
    ensures
        spec_phase_index(to) == spec_phase_index(from) + 1,
{
}

/// The processor features the kernel cannot run without: an advanced
/// programmable interrupt controller, the fast system-call instructions, and
/// no-execute paging support.
#[derive(Debug, PartialEq, Eq, Structural, Clone, Copy)]
pub struct CpuFeatures {
    /// An APIC is present on the processor.
    pub has_apic: bool,
    /// The `syscall`/`sysret` instructions are supported.
    pub has_syscall_sysret: bool,
    /// The no-execute (NXE) paging bit is supported.
    pub has_no_execute: bool,
}

/// Whether a processor with these features can run the kernel: every required
/// feature must be present.
pub open spec fn spec_compatible(features: CpuFeatures) -> bool {
    features.has_apic && features.has_syscall_sysret && features.has_no_execute
}

/// Everything the compatibility check appends to the serial line: one error
/// record per missing feature, in the order the features are checked.
pub open spec fn spec_missing_feature_serial(features: CpuFeatures) -> Seq<Seq<char>> {
    (if !features.has_apic {
        logger::spec_serial_records(logger::Level::Error, "No APIC found."@)
    } else {
        Seq::<Seq<char>>::empty()
    }) + (if !features.has_syscall_sysret {
        logger::spec_serial_records(logger::Level::Error, "Syscall/sysret not supported."@)
    } else {
        Seq::<Seq<char>>::empty()
    }) + (if !features.has_no_execute {
        logger::spec_serial_records(logger::Level::Error, "NXE bit not supported."@)
    } else {
        Seq::<Seq<char>>::empty()
    })
}

/// Everything the compatibility check shows on the firmware console while it
/// is active: the bare message of each error record.
pub open spec fn spec_missing_feature_console(features: CpuFeatures) -> Seq<Seq<char>> {
    (if !features.has_apic {
        seq!["No APIC found."@, "\r\n"@]
    } else {
        Seq::<Seq<char>>::empty()
    }) + (if !features.has_syscall_sysret {
        seq!["Syscall/sysret not supported."@, "\r\n"@]
    } else {
        Seq::<Seq<char>>::empty()
    }) + (if !features.has_no_execute {
        seq!["NXE bit not supported."@, "\r\n"@]
    } else {
        Seq::<Seq<char>>::empty()
    })
}

/// Checks the given features against what the kernel requires, reporting an
/// error for each missing one, and says whether the processor passed.
///
/// Running on an incompatible processor is a fatal configuration error: the
/// caller must halt instead of continuing when this returns `false`.
pub fn evaluate_cpu_compatibility(features: &CpuFeatures, machine: &mut x86_64) -> (compatible:
    bool)
    requires
        old(machine).ready(),
    ensures
        compatible == spec_compatible(*features),
        final(machine).ready(),
        final(machine).serial_log() == old(machine).serial_log()
            + spec_missing_feature_serial(*features),
        final(machine).console_log() == (if old(machine).console_active() {
            old(machine).console_log() + spec_missing_feature_console(*features)
        } else {
            old(machine).console_log()
        }),
        final(machine).console_active() == old(machine).console_active(),
        final(machine).interrupts_on() == old(machine).interrupts_on(),
        final(machine).phase == old(machine).phase,
        final(machine).boot_method == old(machine).boot_method,
{
    let logger = logger::KernelLogger;
    let mut compatible = true;

    if !features.has_apic {
        logger.log(machine, logger::Level::Error, "No APIC found.");
        compatible = false;
    }
    if !features.has_syscall_sysret {
        logger.log(machine, logger::Level::Error, "Syscall/sysret not supported.");
        compatible = false;
    }
    if !features.has_no_execute {
        logger.log(machine, logger::Level::Error, "NXE bit not supported.");
        compatible = false;
    }

    proof {
        assert(machine.serial_log() =~= old(machine).serial_log()
            + spec_missing_feature_serial(*features));
        if old(machine).console_active() {
            assert(machine.console_log() =~= old(machine).console_log()
                + spec_missing_feature_console(*features));
        }
    }
    compatible
}

/// The result of the early compatibility gate: what the processor offers, and
/// whether that passes.
#[derive(Debug, PartialEq, Eq, Structural, Clone, Copy)]
pub struct CompatibilityReport {
    /// The probed processor features.
    pub features: CpuFeatures,
    /// Whether every required feature is present.
    pub compatible: bool,
}

/// Relies on `raw_cpuid::CpuId`: `new` executes the unprivileged `cpuid`
/// instruction reads, `get_feature_info` carries the APIC flag, and
/// `get_extended_processor_and_feature_identifiers` carries the
/// `syscall`/`sysret` and execute-disable flags. What comes back depends on
/// the processor, so nothing is promised about the values.
#[verifier::external_body]
fn probe_cpu_features() -> CpuFeatures {
    let cpuid = raw_cpuid::CpuId::new();
    let has_apic = match cpuid.get_feature_info() {
        Some(features) => features.has_apic(),
        None => false,
    };
    let (has_syscall_sysret, has_no_execute) = match cpuid
        .get_extended_processor_and_feature_identifiers() {
        Some(extended) => (extended.has_syscall_sysret(), extended.has_execute_disable()),
        None => (false, false),
    };
    CpuFeatures { has_apic, has_syscall_sysret, has_no_execute }
}

/// Relies on `raw_cpuid::CpuId`: `get_vendor_info` and
/// `get_processor_brand_string` read the processor's vendor and model names.
/// What comes back depends on the processor, so nothing is promised about the
/// values.
#[verifier::external_body]
fn probe_cpu_identity() -> Option<(String, String)> {
    let cpuid = raw_cpuid::CpuId::new();
    match (cpuid.get_vendor_info(), cpuid.get_processor_brand_string()) {
        (Some(vendor), Some(brand)) => Some((
            vendor.as_str().to_string(),
            brand.as_str().trim().to_string(),
        )),
        _ => None,
    }
}

/// A sequence is a prefix of itself followed by anything.
proof fn lemma_prefix_concat<V>(front: Seq<V>, back: Seq<V>)
    ensures
        front.is_prefix_of(front + back),
{
    assert(front =~= (front + back).subrange(0, front.len() as int));
}

/// The prefix relation is transitive.
proof fn lemma_prefix_transitive<V>(a: Seq<V>, b: Seq<V>, c: Seq<V>)
    requires
        a.is_prefix_of(b),
        b.is_prefix_of(c),
    ensures
        a.is_prefix_of(c),
{
    assert(a =~= c.subrange(0, a.len() as int));
}

/// Logs which processor the kernel is starting on.
pub fn report_cpu_identity(machine: &mut x86_64, vendor: &str, model: &str)
    requires
        old(machine).ready(),
    ensures
        final(machine).ready(),
        final(machine).serial_log() == old(machine).serial_log() + logger::spec_serial_records(
            logger::Level::Info,
            "Starting BeetleOS on a "@ + vendor@ + " CPU (Model: "@ + model@ + ")."@,
        ),
        final(machine).console_log() == (if old(machine).console_active() {
            old(machine).console_log() + seq![
                "Starting BeetleOS on a "@ + vendor@ + " CPU (Model: "@ + model@ + ")."@,
                "\r\n"@,
            ]
        } else {
            old(machine).console_log()
        }),
        final(machine).console_active() == old(machine).console_active(),
        final(machine).interrupts_on() == old(machine).interrupts_on(),
        final(machine).phase == old(machine).phase,
        final(machine).boot_method == old(machine).boot_method,
{
    let mut line = String::from_str("Starting BeetleOS on a ");
    line.append(vendor);
    line.append(" CPU (Model: ");
    line.append(model);
    line.append(").");
    let logger = logger::KernelLogger;
    proof {
        assert(line@ =~= "Starting BeetleOS on a "@ + vendor@ + " CPU (Model: "@ + model@
            + ")."@);
    }
    logger.log(machine, logger::Level::Info, line.as_str());
}

/// Performs early initialization for the x86_64 architecture: probes the
/// processor, reports every missing required feature, and on a compatible
/// processor reports which machine the kernel is starting on.
///
/// The report says whether the processor passed; an incompatible processor is
/// fatal, and the platform layer must halt on it rather than continue. On a
/// compatible processor the platform layer then performs the one-time
/// hardening step of enabling the system-call, no-execute and write-protect
/// flags.
pub fn early_init(machine: &mut x86_64) -> (report: CompatibilityReport)
    requires
        old(machine).ready(),
    ensures
        final(machine).ready(),
        report.compatible == spec_compatible(report.features),
        old(machine).serial_log().is_prefix_of(final(machine).serial_log()),
        final(machine).console_active() == old(machine).console_active(),
        final(machine).interrupts_on() == old(machine).interrupts_on(),
        final(machine).phase == old(machine).phase,
        final(machine).boot_method == old(machine).boot_method,
{
    let ghost s0 = old(machine).serial_log();
    let features = probe_cpu_features();
    let compatible = evaluate_cpu_compatibility(&features, machine);
    proof {
        lemma_prefix_concat(s0, spec_missing_feature_serial(features));
    }

    if compatible {
        let ghost s1 = machine.serial_log();
        let logger = logger::KernelLogger;
        logger.log(machine, logger::Level::Debug, "The CPU is compatible with BeetleOS.");
        proof {
            lemma_prefix_concat(
                s1,
                logger::spec_serial_records(
                    logger::Level::Debug,
                    "The CPU is compatible with BeetleOS."@,
                ),
            );
            lemma_prefix_transitive(s0, s1, machine.serial_log());
        }

        match probe_cpu_identity() {
            Some((vendor, model)) => {
                let ghost s2 = machine.serial_log();
                report_cpu_identity(machine, vendor.as_str(), model.as_str());
                proof {
                    lemma_prefix_concat(
                        s2,
                        logger::spec_serial_records(
                            logger::Level::Info,
                            "Starting BeetleOS on a "@ + vendor@ + " CPU (Model: "@ + model@
                                + ")."@,
                        ),
                    );
                    lemma_prefix_transitive(s0, s2, machine.serial_log());
                }
            },
            None => {},
        }
    }

    CompatibilityReport { features, compatible }
}

/// The possible exit codes for integration tests.
pub enum IntegrationTestExitCode {
    /// The test was successful.
    Success,
    /// The test failed, with a diagnostic.
    Failure(&'static str),
}

impl IntegrationTestExitCode {
    /// The status the hosting virtual machine exits with: `0` for success,
    /// `1` for failure.
    pub open spec fn spec_status(&self) -> u32 {
        match self {
            IntegrationTestExitCode::Success => 0,
            IntegrationTestExitCode::Failure(_) => 1,
        }
    }
}

/// Works out the status to write to the well-known exit port, emitting the
/// diagnostic of a failed test to the serial sink first — the write to the
/// port terminates the hosting virtual machine, so the diagnostic must
/// already be out by then.
pub fn report_integration_test_exit(code: &IntegrationTestExitCode, machine: &mut x86_64) -> (
    status: u32)
    ensures
        status == code.spec_status(),
        final(machine).serial_log() == (match code {
            IntegrationTestExitCode::Success => old(machine).serial_log(),
            IntegrationTestExitCode::Failure(message) => old(machine).serial_log().push(
                message@,
            ),
        }),
        final(machine).console_log() == old(machine).console_log(),
        final(machine).interrupts == old(machine).interrupts,
        final(machine).phase == old(machine).phase,
        final(machine).boot_method == old(machine).boot_method,
{
    match code {
        IntegrationTestExitCode::Success => 0,
        IntegrationTestExitCode::Failure(message) => {
            serial::write_fmt(machine, message);
            1
        },
    }
}

/// Boot phase monotonicity: any sequence of observed phases that starts at
/// `Uninitialized` and follows the legal transitions is a prefix of
/// `Uninitialized, ServicesActive, ServicesInactive`.
pub proof fn lemma_phase_trace_is_prefix(trace: Seq<BootPhase>)
    requires
        trace.len() >= 1,
        trace[0] is Uninitialized,
        forall|i: int|
            0 <= i < trace.len() - 1 ==> spec_phase_step(#[trigger] trace[i], trace[i + 1]),
    ensures
        trace.len() <= 3,
        forall|i: int| 0 <= i < trace.len() ==> spec_phase_index(#[trigger] trace[i]) == i,
    decreases trace.len(),
{
    if trace.len() > 1 {
        let front = trace.drop_last();
        assert(forall|i: int|
            0 <= i < front.len() - 1 ==> spec_phase_step(#[trigger] front[i], front[i + 1]));
        lemma_phase_trace_is_prefix(front);
        assert(spec_phase_step(trace[trace.len() - 2], trace[trace.len() - 1]));
    }
}

} // verus!
