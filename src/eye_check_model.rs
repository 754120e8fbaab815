//! Visibility of the eye-check reminder.

use vstd::prelude::*;

verus! {

/// A command for the reminder. Snoozing hides it like dismissing does; when
/// to show it again is the driver's decision.
#[derive(Debug, Clone, Copy, PartialEq, Eq, Structural)]
pub enum EyeCheckMsg {
    Show,
    Dismiss,
    Snooze,
}

impl EyeCheckMsg {
    /// Whether the reminder is visible after the message.
    pub open spec fn visible_after(self) -> bool {
        self == EyeCheckMsg::Show
    }
}

/// Whether the eye-check reminder is on screen.
pub struct EyeCheckModel {
    visible: bool,
}

impl EyeCheckModel {
    pub closed spec fn spec_visible(&self) -> bool {
        self.visible
    }

    /// A hidden reminder.
    pub fn init() -> (m: EyeCheckModel)
        ensures
            !m.spec_visible(),
    {
        EyeCheckModel { visible: false }
    }

    pub fn is_visible(&self) -> (b: bool)
        ensures
            b == self.spec_visible(),
    {
        self.visible
    }

    /// Shows or hides the reminder; no command ever comes back.
    pub fn update(&mut self, msg: EyeCheckMsg) -> (r: Option<()>)
        ensures
            final(self).spec_visible() == msg.visible_after(),
            r.is_none(),
    {
        match msg {
            EyeCheckMsg::Show => {
                self.visible = true;
                None
            },
            EyeCheckMsg::Dismiss => {
                self.visible = false;
                None
            },
            EyeCheckMsg::Snooze => {
                self.visible = false;
                None
            },
        }
    }
}

} // verus!
