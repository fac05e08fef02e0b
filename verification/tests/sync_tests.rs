//! Tests for the preemption-aware spin lock and the set-once configuration
//! cell.

use beetle_core::arch::x86_64::{x86_64, BootMethod};
use beetle_core::arch::Architecture;
use beetle_core::sync::mutex::Contention;
use beetle_core::sync::{GlobalRuntimeConfiguration, Mutex, PreemptionState};

fn ready_machine(interrupts: bool) -> x86_64 {
    let mut machine = x86_64::new(interrupts);
    machine.record_boot_method(BootMethod::Uefi);
    machine
}

#[test]
fn mutual_exclusion_counter_never_exceeds_one() {
    let mut machine = ready_machine(true);
    let mut contention = Contention::none();
    let mut mutex = Mutex::new(0u64);
    let mut inside: u32 = 0;

    for _ in 0..3 {
        let mut guard = mutex.lock(&mut machine, &mut contention);
        inside += 1;
        assert!(inside <= 1);
        assert!(mutex.is_locked());
        // A second acquirer cannot get in while the guard is live.
        assert!(mutex.try_lock(&mut machine, &contention).is_none());
        guard.data += 1;
        inside -= 1;
        mutex.unlock(guard, &mut machine);
        assert!(!mutex.is_locked());
    }

    assert_eq!(mutex.into_inner(), 3);
}

#[test]
fn preemption_transparency_flag_restored() {
    for &initial in &[true, false] {
        let mut machine = ready_machine(initial);
        let mut contention = Contention::none();
        let mut mutex = Mutex::new('x');

        assert_eq!(machine.interrupts_enabled(), initial);
        let guard = mutex.lock(&mut machine, &mut contention);
        // Interrupts are suppressed for the whole critical section.
        assert!(!machine.interrupts_enabled());
        mutex.unlock(guard, &mut machine);
        // The flag observed after the guard drops equals the flag observed
        // before lock() was called.
        assert_eq!(machine.interrupts_enabled(), initial);
    }
}

#[test]
fn lock_spins_through_contention() {
    let mut machine = ready_machine(true);
    // Two transient foreign holds, with two and one reads observing them.
    let mut contention = Contention::new(vec![2, 1]);
    let mut mutex = Mutex::new(7u64);

    let guard = mutex.lock(&mut machine, &mut contention);
    assert_eq!(guard.data, 7);
    assert!(mutex.is_locked());
    assert!(!machine.interrupts_enabled());
    mutex.unlock(guard, &mut machine);
    assert!(!mutex.is_locked());
    assert!(machine.interrupts_enabled());
}

#[test]
fn try_lock_on_held_lock_fails_without_side_effects() {
    let mut machine = ready_machine(true);
    let mut contention = Contention::none();
    let mut mutex = Mutex::new(41u64);

    let guard = mutex.lock(&mut machine, &mut contention);
    let serial_before = machine.serial_output.len();

    // Non-blocking try: not acquired, the protected value is not touched,
    // and interrupts are not left disabled afterwards.
    let attempt = mutex.try_lock(&mut machine, &contention);
    assert!(attempt.is_none());
    assert!(!machine.interrupts_enabled());
    assert_eq!(machine.serial_output.len(), serial_before);

    mutex.unlock(guard, &mut machine);
    assert!(machine.interrupts_enabled());

    // The failed attempt restored the pre-attempt interrupt state even
    // though no guard existed to do so; with the lock free again the value
    // is unchanged.
    assert_eq!(mutex.into_inner(), 41);
}

#[test]
fn try_lock_under_foreign_hold_fails() {
    let mut machine = ready_machine(false);
    let foreign = Contention::new(vec![1]);
    let mut mutex = Mutex::new(5u8);

    let attempt = mutex.try_lock(&mut machine, &foreign);
    assert!(attempt.is_none());
    // The interrupt flag is back to what it was before the attempt.
    assert!(!machine.interrupts_enabled());
    assert!(!mutex.is_locked());
}

#[test]
fn try_lock_on_free_lock_acquires() {
    let mut machine = ready_machine(true);
    let contention = Contention::none();
    let mut mutex = Mutex::new(11u32);

    let guard = mutex.try_lock(&mut machine, &contention).unwrap();
    assert_eq!(guard.data, 11);
    assert!(mutex.is_locked());
    assert!(!machine.interrupts_enabled());
    mutex.unlock(guard, &mut machine);
    assert!(machine.interrupts_enabled());
}

#[test]
fn release_ordering_observable_state() {
    let mut machine = ready_machine(true);
    let mut contention = Contention::none();
    let mut mutex = Mutex::new(0u8);

    let guard = mutex.lock(&mut machine, &mut contention);
    assert!(mutex.is_locked());
    assert!(!machine.interrupts_enabled());
    mutex.unlock(guard, &mut machine);
    // After release both steps have happened: the flag is clear and the
    // interrupt-enable state is restored. Their strict order — flag first,
    // restore second — is part of the verified contract of unlock.
    assert!(!mutex.is_locked());
    assert!(machine.interrupts_enabled());
}

#[test]
fn preemption_state_snapshot_and_restore() {
    let mut machine = ready_machine(true);

    let state = PreemptionState::current(&machine);
    machine.disable_interrupts();
    assert!(!machine.interrupts_enabled());
    state.restore(&mut machine);
    assert!(machine.interrupts_enabled());

    machine.set_interrupts_enabled(false);
    assert!(!machine.interrupts_enabled());
    machine.set_interrupts_enabled(true);
    assert!(machine.interrupts_enabled());
}

#[test]
fn default_mutex_wraps_default_value() {
    let mutex: Mutex<u64> = Mutex::default();
    assert!(!mutex.is_locked());
    assert_eq!(mutex.into_inner(), 0);
}

#[test]
fn global_runtime_configuration_is_set_once() {
    let mut config: GlobalRuntimeConfiguration<u64> = GlobalRuntimeConfiguration::new();
    assert!(config.get().is_none());

    config.init(10);
    assert_eq!(config.get(), Some(&10));

    // A second initialization changes nothing: the first write wins.
    config.init(20);
    assert_eq!(config.get(), Some(&10));
}
