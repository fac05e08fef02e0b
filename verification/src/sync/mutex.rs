//! Handles mutual exclusion to data.
//!
//! This provides MUTual EXclusion based on spinning. It may be used before
//! any scheduler exists: acquisition couples the lock flag with suspension of
//! preemption on the local core, so an interrupt handler on the same core can
//! never deadlock against code that holds the lock.
//!
//! The lock flag is a single shared bit that other cores race on. Within this
//! verified model the racing of the other cores is an explicit value, a
//! [`Contention`]: it lists the transient foreign holds of the flag that this
//! core will observe, so the retry discipline of [`Mutex::lock`] is exercised
//! and checked for every such schedule. On an otherwise idle machine the
//! contention is simply empty.

use vstd::prelude::*;

use crate::arch::Architecture;
use crate::sync::{disable_preemption, PreemptionState};

verus! {

/// The lock-flag activity of the other cores, as observed from this core: one
/// entry per transient foreign hold of the flag, holding the number of reads
/// this core makes before the foreign core releases the flag again. The holds
/// are observed from the last entry to the first.
pub struct Contention {
    /// The pending foreign holds of the lock flag.
    pub holds: Vec<u32>,
}

impl Contention {
    /// Whether a foreign core holds the lock flag right now.
    pub open spec fn spec_active(&self) -> bool {
        self.holds@.len() > 0
    }

    /// No other core touches the lock flag: an otherwise idle machine.
    pub fn none() -> (contention: Contention)
        ensures
            !contention.spec_active(),
            contention.holds@.len() == 0,
    {
        Contention { holds: Vec::new() }
    }

    /// The given schedule of transient foreign holds.
    pub fn new(holds: Vec<u32>) -> (contention: Contention)
        ensures
            contention.holds == holds,
    {
        Contention { holds }
    }

    /// Whether a foreign core holds the lock flag right now.
    pub fn is_active(&self) -> (active: bool)
        ensures
            active == self.spec_active(),
    {
        self.holds.len() > 0
    }
}

/// One observable step of a lock's life, in program order.
pub enum LockEvent {
    /// A compare-and-swap took the flag from free to held.
    Acquired,
    /// The flag was stored back to free.
    FlagCleared,
    /// The preemption state saved at acquisition was restored; the payload is
    /// the restored interrupt-enable flag.
    PreemptionRestored(bool),
}

/// This type provides mutual exclusion based on spinning.
///
/// It differs from an ordinary mutex in that it may be used outside any
/// runtime, and there is no lock poisoning: when a failure occurs while the
/// lock is held, no guarantees are made about the protected value.
///
/// The flag is held exactly while a [`MutexGuard`] is live; the guard owns
/// the protected value for that span.
pub struct Mutex<T> {
    /// The lock flag; on hardware, the atomic bit all cores race on.
    locked: bool,
    /// The protected value; absent exactly while a guard owns it.
    data: Option<T>,
    /// The observable steps this lock has gone through, in program order.
    history: Ghost<Seq<LockEvent>>,
}

/// A guard through which the protected data can be accessed.
///
/// A guard is created only by a successful acquisition and exclusively owns
/// the protected value for its lifetime. Releasing it through
/// [`Mutex::unlock`] clears the lock flag first and only then restores the
/// caller's preemption state, in that order: the flag may become visible as
/// free only once it is safe for this core to be interrupted again.
pub struct MutexGuard<T> {
    /// The protected value, owned exclusively while the guard is live.
    pub data: T,
    /// The preemption state captured when the lock was acquired.
    pub preemption_state: PreemptionState,
}

impl<T> MutexGuard<T> {
    /// The interrupt-enable flag that releasing this guard will restore.
    pub closed spec fn saved_interrupts(&self) -> bool {
        self.preemption_state.saved_interrupts()
    }
}

impl<T> Mutex<T> {
    /// Whether the lock flag is held.
    pub closed spec fn spec_locked(&self) -> bool {
        self.locked
    }

    /// The protected value, absent exactly while a guard owns it.
    pub closed spec fn spec_data(&self) -> Option<T> {
        self.data
    }

    /// The observable steps this lock has gone through, in program order.
    pub closed spec fn history(&self) -> Seq<LockEvent> {
        self.history@
    }

    /// The lock invariant: the flag is held if and only if the protected
    /// value is out with a guard.
    pub open spec fn inv(&self) -> bool {
        self.spec_locked() <==> self.spec_data() is None
    }

    /// Whether a single acquisition attempt on this lock can succeed under
    /// the given contention.
    pub open spec fn spec_can_acquire(&self, contention: Contention) -> bool {
        !self.spec_locked() && !contention.spec_active()
    }

    /// Creates a new spinlock wrapping the supplied data.
    pub fn new(user_data: T) -> (mutex: Mutex<T>)
        ensures
            mutex.inv(),
            !mutex.spec_locked(),
            mutex.spec_data() == Some(user_data),
            mutex.history() == Seq::<LockEvent>::empty(),
    {
        Mutex { locked: false, data: Some(user_data), history: Ghost(Seq::empty()) }
    }

    /// Consumes this mutex, returning the underlying data.
    ///
    /// There must be no outstanding guard: a held lock has its value out with
    /// the guard, not in the mutex.
    pub fn into_inner(self) -> (user_data: T)
        requires
            self.inv(),
            !self.spec_locked(),
        ensures
            Some(user_data) == self.spec_data(),
    {
        let Mutex { data, .. } = self;
        data.unwrap()
    }

    /// Whether the lock flag is held.
    pub fn is_locked(&self) -> (locked: bool)
        ensures
            locked == self.spec_locked(),
    {
        self.locked
    }

    /// One atomic compare-and-swap attempt on the lock flag, from free to
    /// held. It succeeds exactly when neither this lock's own guard nor a
    /// foreign core holds the flag at this instant.
    fn try_acquire_flag(&mut self, contention: &Contention) -> (acquired: bool)
        ensures
            acquired == old(self).spec_can_acquire(*contention),
            final(self).spec_data() == old(self).spec_data(),
            acquired ==> final(self).spec_locked() && final(self).history()
                == old(self).history().push(LockEvent::Acquired),
            !acquired ==> *final(self) == *old(self),
    {
        if !contention.is_active() && !self.locked {
            self.locked = true;
            self.history = Ghost(self.history@.push(LockEvent::Acquired));
            true
        } else {
            false
        }
    }

    /// The lock flag as this core observes it: held by this lock's own guard
    /// or transiently by a foreign core.
    fn appears_held(&self, contention: &Contention) -> (held: bool)
        ensures
            held == (self.spec_locked() || contention.spec_active()),
    {
        self.locked || contention.is_active()
    }

    /// Reads the lock flag without attempting to take it, until the foreign
    /// core currently holding it releases it.
    fn spin_while_held(&self, contention: &mut Contention)
        requires
            old(contention).spec_active(),
        ensures
            final(contention).holds@ == old(contention).holds@.drop_last(),
    {
        let mut remaining_reads: u32 = contention.holds[contention.holds.len() - 1];
        while remaining_reads > 0
            decreases remaining_reads,
        {
            // One more read observing the flag as held.
            let _held = self.appears_held(contention);
            remaining_reads = remaining_reads - 1;
        }
        contention.holds.pop();
    }

    /// The acquisition loop: suspend preemption and attempt one
    /// compare-and-swap; on failure restore the saved preemption state, so a
    /// legitimate interrupt is not blocked while waiting, spin until the flag
    /// looks free, and retry.
    #[verifier::loop_isolation(false)]
    fn obtain_lock<A: Architecture>(
        &mut self,
        arch: &mut A,
        contention: &mut Contention,
    ) -> (preemption_state: PreemptionState)
        requires
            !old(self).spec_locked(),
            old(arch).ready(),
        ensures
            final(self).spec_locked(),
            final(self).spec_data() == old(self).spec_data(),
            final(self).history() == old(self).history().push(LockEvent::Acquired),
            preemption_state.saved_interrupts() == old(arch).interrupts_on(),
            final(arch).ready(),
            !final(arch).interrupts_on(),
            final(arch).console_active() == old(arch).console_active(),
            final(arch).console_log() == old(arch).console_log(),
            final(arch).serial_log() == old(arch).serial_log(),
            !final(contention).spec_active(),
    {
        loop
            invariant
                !self.spec_locked(),
                self.spec_data() == old(self).spec_data(),
                self.history() == old(self).history(),
                arch.ready(),
                arch.interrupts_on() == old(arch).interrupts_on(),
                arch.console_active() == old(arch).console_active(),
                arch.console_log() == old(arch).console_log(),
                arch.serial_log() == old(arch).serial_log(),
            decreases contention.holds@.len(),
        {
            let preemption_state = disable_preemption(arch);

            if self.try_acquire_flag(contention) {
                return preemption_state;
            }

            // Let interrupts through again while waiting: the handler that
            // would release the lock on this core must be able to run.
            preemption_state.restore(arch);

            // Wait until the lock looks unlocked before retrying.
            self.spin_while_held(contention);
        }
    }

    /// Locks the spinlock and returns a guard.
    ///
    /// The returned guard owns the protected value and the preemption state
    /// saved at acquisition; the lock is released through [`Mutex::unlock`].
    /// While the lock is held, interrupts stay disabled on this core.
    pub fn lock<A: Architecture>(
        &mut self,
        arch: &mut A,
        contention: &mut Contention,
    ) -> (guard: MutexGuard<T>)
        requires
            old(self).inv(),
            !old(self).spec_locked(),
            old(arch).ready(),
        ensures
            final(self).inv(),
            final(self).spec_locked(),
            final(self).history() == old(self).history().push(LockEvent::Acquired),
            Some(guard.data) == old(self).spec_data(),
            guard.saved_interrupts() == old(arch).interrupts_on(),
            final(arch).ready(),
            !final(arch).interrupts_on(),
            final(arch).console_active() == old(arch).console_active(),
            final(arch).console_log() == old(arch).console_log(),
            final(arch).serial_log() == old(arch).serial_log(),
            !final(contention).spec_active(),
    {
        let preemption_state = self.obtain_lock(arch, contention);
        let data = self.data.take().unwrap();
        MutexGuard { data, preemption_state }
    }

    /// Tries to lock the mutex with a single acquisition attempt, without
    /// spinning.
    ///
    /// If the flag is held, by this lock's own guard or by a foreign core, it
    /// returns `None`; the attempt itself then restores the preemption state
    /// it suspended, leaves the protected value untouched, and leaves the
    /// interrupt-enable flag as it found it. Otherwise it returns a guard
    /// identical to the one `lock` returns.
    pub fn try_lock<A: Architecture>(
        &mut self,
        arch: &mut A,
        contention: &Contention,
    ) -> (result: Option<MutexGuard<T>>)
        requires
            old(self).inv(),
            old(arch).ready(),
        ensures
            final(self).inv(),
            result is Some <==> old(self).spec_can_acquire(*contention),
            result matches Some(guard) ==> {
                &&& final(self).spec_locked()
                &&& final(self).history() == old(self).history().push(LockEvent::Acquired)
                &&& Some(guard.data) == old(self).spec_data()
                &&& guard.saved_interrupts() == old(arch).interrupts_on()
                &&& !final(arch).interrupts_on()
            },
            result is None ==> {
                &&& *final(self) == *old(self)
                &&& final(arch).interrupts_on() == old(arch).interrupts_on()
            },
            final(arch).ready(),
            final(arch).console_active() == old(arch).console_active(),
            final(arch).console_log() == old(arch).console_log(),
            final(arch).serial_log() == old(arch).serial_log(),
    {
        let preemption_state = disable_preemption(arch);

        if self.try_acquire_flag(contention) {
            let data = self.data.take().unwrap();
            Some(MutexGuard { data, preemption_state })
        } else {
            preemption_state.restore(arch);
            None
        }
    }

    /// Releases the lock held by the guard, storing the protected value back.
    ///
    /// On every release the lock flag becomes free strictly before the
    /// caller's preemption state is restored — never the other way around —
    /// as the two events appended to the history record: the flag must be
    /// visible as free only once it is actually safe to be interrupted.
    pub fn unlock<A: Architecture>(&mut self, guard: MutexGuard<T>, arch: &mut A)
        requires
            old(self).inv(),
            old(self).spec_locked(),
            old(arch).ready(),
        ensures
            final(self).inv(),
            !final(self).spec_locked(),
            final(self).spec_data() == Some(guard.data),
            final(self).history() == old(self).history() + seq![
                LockEvent::FlagCleared,
                LockEvent::PreemptionRestored(guard.saved_interrupts()),
            ],
            final(arch).ready(),
            final(arch).interrupts_on() == guard.saved_interrupts(),
            final(arch).console_active() == old(arch).console_active(),
            final(arch).console_log() == old(arch).console_log(),
            final(arch).serial_log() == old(arch).serial_log(),
    {
        let MutexGuard { data, preemption_state } = guard;
        let ghost saved_flag = preemption_state.saved_interrupts();

        self.locked = false;
        self.data = Some(data);
        self.history = Ghost(self.history@.push(LockEvent::FlagCleared));

        preemption_state.restore(arch);
        self.history = Ghost(self.history@.push(LockEvent::PreemptionRestored(saved_flag)));
        proof {
            assert(self.history@ =~= old(self).history() + seq![
                LockEvent::FlagCleared,
                LockEvent::PreemptionRestored(saved_flag),
            ]);
        }
    }
}

impl<T: Default> Default for Mutex<T> {
    /// A fresh, unheld lock around the default value of the protected type.
    fn default() -> (mutex: Mutex<T>)
        ensures
            mutex.inv(),
            !mutex.spec_locked(),
            mutex.spec_data() is Some,
            mutex.history() == Seq::<LockEvent>::empty(),
    {
        Mutex::new(T::default())
    }
}

/// Mutual exclusion: while a guard of a lock is live, the lock flag is held,
/// so no further acquisition can succeed — `try_lock` returns `None` under
/// every contention, and the spin of `lock` cannot end. At most one guard of
/// a lock is therefore ever live, and at most one caller is ever inside a
/// critical section protected by it.
pub proof fn lemma_mutual_exclusion<T>(mutex: Mutex<T>, contention: Contention)
    requires
        mutex.inv(),
        mutex.spec_locked(),
    ensures
        !mutex.spec_can_acquire(contention),
        mutex.spec_data() is None,
{
}

} // verus!
