//! What the renderer reads of the UI model.

use vstd::prelude::*;
use crate::model::OnboardModel;
use crate::pages::AssistantPage;

verus! {

/// The part of the model that decides how a frame is drawn.
#[derive(Debug, Clone, Copy, PartialEq, Eq)]
pub struct RenderSnapshot {
    pub page: AssistantPage,
    pub quiet_render_enabled: bool,
}

impl RenderSnapshot {
    /// Takes the current page and the quiet-render setting from `state`.
    pub fn from_state(state: &OnboardModel) -> (r: Self)
        ensures
            r.page == state.current_page,
            r.quiet_render_enabled == state.settings.quiet_render_enabled,
    {
        RenderSnapshot {
            page: state.current_page,
            quiet_render_enabled: state.settings.quiet_render_enabled,
        }
    }
}

} // verus!
