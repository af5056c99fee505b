//! Home page state (glance-only dashboard).

use vstd::prelude::*;
use crate::assistant::sat_inc;

verus! {

/// Home page state: a center tap refreshes data and never opens a detail mode.
#[derive(Debug, Clone)]
pub struct HomeState {
    pub status_detail_open: bool,
    pub select_count: u32,
}

/// A glance refresh: detail stays closed and the request is counted.
pub open spec fn glance_refreshed(old_s: HomeState, new_s: HomeState) -> bool {
    !new_s.status_detail_open && new_s.select_count == sat_inc(old_s.select_count)
}

impl HomeState {
    /// The state at boot: glance mode, nothing selected yet.
    pub open spec fn is_boot(self) -> bool {
        &&& !self.status_detail_open
        &&& self.select_count == 0
    }

    pub fn new() -> (r: Self)
        ensures
            r.is_boot(),
    {
        HomeState { status_detail_open: false, select_count: 0 }
    }

    /// Counts a refresh request and keeps the page in glance mode.
    pub fn refresh_glance(&mut self)
        ensures
            glance_refreshed(*old(self), *final(self)),
    {
        self.status_detail_open = false;
        self.select_count = self.select_count.saturating_add(1);
    }

    pub fn detail_label(&self) -> (r: &'static str)
        ensures
            r@ == "GLANCE"@,
    {
        "GLANCE"
    }
}

} // verus!
