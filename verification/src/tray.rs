//! The tray-flash timer: a single cancellable periodic task behind a
//! lock.
//!
//! The state machine has two states, idle and flashing. Enabling while
//! idle asks the caller to spawn the periodic task and stores its
//! cancellable handle; enabling while already flashing is a no-op, so a
//! second timer is never spawned. Disabling clears the running flag and
//! hands the stored handle back for cancellation; the periodic task also
//! reads the running flag on each tick, so it winds down within one tick
//! even if cancelling it does nothing. The handle type is the caller's —
//! whatever its runtime uses to cancel a task.
use vstd::prelude::*;

verus! {

/// The guarded timer state: the running flag and the cancellable handle
/// of the periodic task, present exactly while it runs.
pub struct TrayState<H> {
    pub timer: Option<H>,
    pub is_running: bool,
}

/// What the timer state looks like to specifications.
pub struct TimerView {
    pub running: bool,
    pub has_timer: bool,
}

/// What a toggle request asks the caller to do next.
pub enum FlashDecision {
    /// The request matches the current state: do nothing.
    KeepAsIs,
    /// Spawn the periodic flashing task and store its handle.
    SpawnFlasher,
    /// Cancel the stored task and restore the default icon.
    RestoreIcon,
}

/// Which action a toggle request amounts to: nothing when the request
/// matches the current state, else spawn or tear down.
pub open spec fn flash_decision_spec(running: bool, flash: bool) -> FlashDecision {
    if flash == running {
        FlashDecision::KeepAsIs
    } else if flash {
        FlashDecision::SpawnFlasher
    } else {
        FlashDecision::RestoreIcon
    }
}

/// How enabling moves the timer state: running, with the fresh handle.
pub open spec fn enable_view(v: TimerView) -> TimerView {
    TimerView { running: true, has_timer: true }
}

/// How disabling moves the timer state: idle, handle cleared.
pub open spec fn disable_view(v: TimerView) -> TimerView {
    TimerView { running: false, has_timer: false }
}

impl<H> TrayState<H> {
    /// What this state looks like to specifications.
    pub open spec fn view_of(&self) -> TimerView {
        TimerView { running: self.is_running, has_timer: self.timer is Some }
    }

    /// Well-formedness: a handle is stored exactly while the task runs.
    pub open spec fn wf(&self) -> bool {
        self.is_running == (self.timer is Some)
    }

    /// A fresh timer state: idle, no task.
    pub fn new() -> (r: Self)
        ensures
            r.wf(),
            !r.is_running,
            r.timer is None,
    {
        TrayState { timer: None, is_running: false }
    }

    /// Decides a toggle request against the current state. The caller
    /// performs the action while still holding the lock: spawning
    /// before `enable`, cancelling what `disable` returns.
    pub fn flash_tray_icon(&self, flash: bool) -> (r: FlashDecision)
        ensures
            r == flash_decision_spec(self.is_running, flash),
    {
        if flash == self.is_running {
            FlashDecision::KeepAsIs
        } else if flash {
            FlashDecision::SpawnFlasher
        } else {
            FlashDecision::RestoreIcon
        }
    }

    /// Installs the freshly spawned task: both halves of the state are
    /// set together, before the lock is released. Whatever handle was
    /// stored before comes back for cancellation.
    pub fn enable(&mut self, timer: H) -> (prev: Option<H>)
        ensures
            final(self).wf(),
            final(self).view_of() == enable_view(old(self).view_of()),
            final(self).timer == Some(timer),
            prev == old(self).timer,
    {
        let prev = self.timer.take();
        self.timer = Some(timer);
        self.is_running = true;
        prev
    }

    /// Tears the timer down: flips the flag off and clears the handle,
    /// handing it back for cancellation. The periodic task reads the
    /// flag on each tick, so it also stops by itself within one tick.
    pub fn disable(&mut self) -> (prev: Option<H>)
        ensures
            final(self).wf(),
            final(self).view_of() == disable_view(old(self).view_of()),
            final(self).timer is None,
            prev == old(self).timer,
    {
        let prev = self.timer.take();
        self.is_running = false;
        prev
    }
}

/// Whether the flashing task is currently running.
pub fn get_tray_flash_state<H>(state: &TrayState<H>) -> (r: bool)
    ensures
        r == state.is_running,
{
    state.is_running
}

/// LAW: enabling twice with no disable in between leaves exactly one
/// active periodic task — the second request decides `KeepAsIs`, so no
/// second task is spawned and the stored handle is the first one.
pub proof fn lemma_enable_idempotent(v: TimerView)
    requires
        !v.running,
    ensures
        flash_decision_spec(v.running, true) is SpawnFlasher,
        enable_view(v).running && enable_view(v).has_timer,
        flash_decision_spec(enable_view(v).running, true) is KeepAsIs,
{
}

/// LAW: disabling after enabling results in an idle state with the
/// handle cleared — the task to cancel is handed back, and the flag the
/// task polls is already false.
pub proof fn lemma_disable_after_enable(v: TimerView)
    ensures
        flash_decision_spec(enable_view(v).running, false) is RestoreIcon,
        !disable_view(enable_view(v)).running,
        !disable_view(enable_view(v)).has_timer,
{
}

} // verus!
