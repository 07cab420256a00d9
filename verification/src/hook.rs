//! The lifecycle of a capture or grab registration. Each engine owns one
//! slot per process; the slot moves from idle through installing to
//! running, back through uninstalling, and to failed when installation is
//! rejected. A second registration is refused while one is active, which
//! keeps the process at exactly one active registration per engine.

use vstd::prelude::*;

verus! {

/// The state of a registration slot.
#[derive(Debug, Copy, Clone, PartialEq, Eq, Structural)]
pub enum HookState {
    /// No registration.
    Idle,
    /// A registration is being installed.
    Installing,
    /// The hook is installed and delivering events.
    Running,
    /// The hook is being taken down.
    Uninstalling,
    /// Installation was rejected; the slot must be reset before reuse.
    Failed,
}

/// One registration slot of an engine.
pub struct HookSlot {
    state: HookState,
}

impl HookSlot {
    /// The slot's state, for contracts.
    pub closed spec fn view_state(&self) -> HookState {
        self.state
    }

    pub fn new() -> (r: HookSlot)
        ensures
            r.view_state() is Idle,
    {
        HookSlot { state: HookState::Idle }
    }

    /// Claims the slot for a new registration. Law: only an idle slot can
    /// be claimed, so while one registration is installing or running,
    /// every further claim is refused and changes nothing.
    pub fn begin_install(&mut self) -> (r: bool)
        ensures
            r <==> old(self).view_state() is Idle,
            r ==> final(self).view_state() is Installing,
            !r ==> final(self).view_state() == old(self).view_state(),
    {
        match self.state {
            HookState::Idle => {
                self.state = HookState::Installing;
                true
            },
            _ => false,
        }
    }

    /// Records the outcome of the installation: success enters the
    /// running state; a rejection enters the failed state and never enters
    /// running.
    pub fn finish_install(&mut self, ok: bool)
        requires
            old(self).view_state() is Installing,
        ensures
            ok ==> final(self).view_state() is Running,
            !ok ==> final(self).view_state() is Failed,
    {
        if ok {
            self.state = HookState::Running;
        } else {
            self.state = HookState::Failed;
        }
    }

    /// Starts taking a running hook down; on any other state this is a
    /// no-op, so repeated or early stop requests are harmless.
    pub fn begin_uninstall(&mut self)
        ensures
            old(self).view_state() is Running ==> final(self).view_state() is Uninstalling,
            !(old(self).view_state() is Running) ==> final(self).view_state() == old(
                self,
            ).view_state(),
    {
        if let HookState::Running = self.state {
            self.state = HookState::Uninstalling;
        }
    }

    /// Returns the slot to idle once the hook is gone or after a failure.
    pub fn finish_uninstall(&mut self)
        requires
            old(self).view_state() is Uninstalling || old(self).view_state() is Failed,
        ensures
            final(self).view_state() is Idle,
    {
        self.state = HookState::Idle;
    }

    /// Whether the hook is delivering events.
    pub fn is_running(&self) -> (r: bool)
        ensures
            r <==> self.view_state() is Running,
    {
        match self.state {
            HookState::Running => true,
            _ => false,
        }
    }
}

} // verus!
