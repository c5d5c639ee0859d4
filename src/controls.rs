//! Start, stop and restart. One in-flight flag is shared by the three
//! actions, so no second action can be sent while one is pending. Success
//! shows a message and asks for a reload after a delay that lets the backend
//! catch up; failure is only logged.

use vstd::prelude::*;

verus! {

/// Delay between a successful control action and the reload, in milliseconds.
pub const RELOAD_DELAY_MS: u32 = 1500;

#[derive(PartialEq, Eq, Structural, Clone, Copy, Debug)]
pub enum ControlAction {
    Start,
    Stop,
    Restart,
}

pub struct ControlPanel {
    /// An action is pending; all three buttons are disabled.
    pub in_flight: bool,
    /// The action whose success message is shown.
    pub succeeded: Option<ControlAction>,
}

impl ControlPanel {
    pub fn new() -> (r: ControlPanel)
        ensures
            !r.in_flight,
            r.succeeded is None,
    {
        ControlPanel { in_flight: false, succeeded: None }
    }

    /// A button is pressed: the action to send, unless one is pending.
    pub fn press(&mut self, action: ControlAction) -> (r: Option<ControlAction>)
        ensures
            old(self).in_flight ==> r is None && final(self).in_flight && final(self).succeeded
                == old(self).succeeded,
            !old(self).in_flight ==> r == Some(action) && final(self).in_flight
                && final(self).succeeded is None,
    {
        if self.in_flight {
            return None;
        }
        self.in_flight = true;
        self.succeeded = None;
        Some(action)
    }

    /// The action came back: on success, the delay after which to reload.
    pub fn finish(&mut self, action: ControlAction, ok: bool) -> (r: Option<u32>)
        ensures
            !final(self).in_flight,
            ok ==> r == Some(RELOAD_DELAY_MS) && final(self).succeeded == Some(action),
            !ok ==> r is None && final(self).succeeded == old(self).succeeded,
    {
        self.in_flight = false;
        if ok {
            self.succeeded = Some(action);
            Some(RELOAD_DELAY_MS)
        } else {
            None
        }
    }
}

/// Translation key of the success message of an action.
pub fn success_key(action: ControlAction) -> (r: String)
    ensures
        action == ControlAction::Start ==> r@ == "project_dashboard.start_success"@,
        action == ControlAction::Stop ==> r@ == "project_dashboard.stop_success"@,
        action == ControlAction::Restart ==> r@ == "project_dashboard.restart_success"@,
{
    match action {
        ControlAction::Start => String::from_str("project_dashboard.start_success"),
        ControlAction::Stop => String::from_str("project_dashboard.stop_success"),
        ControlAction::Restart => String::from_str("project_dashboard.restart_success"),
    }
}

} // verus!
