//! The polling scheduler's gating decisions. A fixed-interval timer
//! ticks whether or not the file view is open; the scheduler decides
//! which ticks refresh the index — every tick while visible, none while
//! hidden — and asks for one immediate refresh on the transition from
//! hidden to visible. The timer itself, and the refresh work, belong to
//! the caller.

use vstd::prelude::*;

verus! {

/// The switch between the timer and the index: refresh only while the
/// file view is visible.
pub struct PollingScheduler {
    pub visible: bool,
}

impl PollingScheduler {
    /// A fresh scheduler for a view that starts hidden.
    pub fn new() -> (p: PollingScheduler)
        ensures
            !p.visible,
    {
        PollingScheduler { visible: false }
    }

    /// Records a visibility change; the result asks for the one immediate
    /// refresh owed on the transition from hidden to visible.
    pub fn set_visible(&mut self, visible: bool) -> (refresh: bool)
        ensures
            final(self).visible == visible,
            refresh == (visible && !old(self).visible),
    {
        let refresh = visible && !self.visible;
        self.visible = visible;
        refresh
    }

    /// Decides one timer tick: refresh exactly while visible.
    pub fn tick(&self) -> (refresh: bool)
        ensures
            refresh == self.visible,
    {
        self.visible
    }
}

} // verus!
