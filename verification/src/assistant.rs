//! Assistant page state (local mock listening toggle).

use vstd::prelude::*;

verus! {

/// Listening state of the assistant page.
#[derive(Debug, Clone)]
pub struct AssistantState {
    pub listening: bool,
    pub toggle_count: u32,
}

/// Saturating increment of a counter.
pub open spec fn sat_inc(n: u32) -> u32 {
    if n == u32::MAX {
        n
    } else {
        (n + 1) as u32
    }
}

/// A listening toggle: listening flips and the toggle is counted.
pub open spec fn listening_toggled(old_s: AssistantState, new_s: AssistantState) -> bool {
    new_s.listening == !old_s.listening && new_s.toggle_count == sat_inc(old_s.toggle_count)
}

impl AssistantState {
    /// The state at boot: not listening, never toggled.
    pub open spec fn is_boot(self) -> bool {
        &&& !self.listening
        &&& self.toggle_count == 0
    }

    /// Idle, never toggled.
    pub fn new() -> (r: Self)
        ensures
            r.is_boot(),
    {
        AssistantState { listening: false, toggle_count: 0 }
    }

    /// Flips listening and counts the toggle (saturating).
    pub fn toggle_listening(&mut self)
        ensures
            listening_toggled(*old(self), *final(self)),
    {
        self.listening = !self.listening;
        self.toggle_count = self.toggle_count.saturating_add(1);
    }

    pub fn state_label(&self) -> (r: &'static str)
        ensures
            r@ == (if self.listening {
                "LISTENING"@
            } else {
                "TAP TO TALK"@
            }),
    {
        if self.listening {
            "LISTENING"
        } else {
            "TAP TO TALK"
        }
    }

    pub fn prompt_label(&self) -> (r: &'static str)
        ensures
            r@ == (if self.listening {
                "HOW CAN I HELP"@
            } else {
                "LOCAL ASSIST"@
            }),
    {
        if self.listening {
            "HOW CAN I HELP"
        } else {
            "LOCAL ASSIST"
        }
    }

    pub fn title_label(&self) -> (r: &'static str)
        ensures
            r@ == (if self.listening {
                "LISTENING"@
            } else {
                "AI ASSISTANT"@
            }),
    {
        if self.listening {
            "LISTENING"
        } else {
            "AI ASSISTANT"
        }
    }

    pub fn subtitle_label(&self) -> (r: &'static str)
        ensures
            r@ == (if self.listening {
                "AI ASSISTANT"@
            } else {
                "LOCAL ASSIST"@
            }),
    {
        if self.listening {
            "AI ASSISTANT"
        } else {
            "LOCAL ASSIST"
        }
    }

    pub fn card_label(&self) -> (r: &'static str)
        ensures
            r@ == (if self.listening {
                "HOW CAN I HELP?"@
            } else {
                "TAP TO TALK"@
            }),
    {
        if self.listening {
            "HOW CAN I HELP?"
        } else {
            "TAP TO TALK"
        }
    }

    pub fn card_aux_label(&self) -> (r: &'static str)
        ensures
            r@ == (if self.listening {
                "LOCAL MOCK"@
            } else {
                "READY"@
            }),
    {
        if self.listening {
            "LOCAL MOCK"
        } else {
            "READY"
        }
    }
}

} // verus!
