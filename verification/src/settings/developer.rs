//! Settings for developing the app itself.
use vstd::prelude::*;

verus! {

/// A change for the shell to keep and apply.
#[derive(Debug, Clone, Copy, PartialEq, Eq, Structural)]
pub enum DeveloperEvent {
    HotReloadChanged(bool),
}

#[derive(Debug, Clone, Copy, PartialEq, Eq, Structural)]
pub struct DeveloperPage {
    pub hot_reload: bool,
}

impl DeveloperPage {
    pub fn new(hot_reload: bool) -> (p: DeveloperPage)
        ensures
            p.hot_reload == hot_reload,
    {
        DeveloperPage { hot_reload }
    }

    /// Flips the switch for hot reload.
    pub fn toggle(&mut self) -> (e: DeveloperEvent)
        ensures
            final(self).hot_reload == !old(self).hot_reload,
            e == DeveloperEvent::HotReloadChanged(final(self).hot_reload),
    {
        self.hot_reload = !self.hot_reload;
        DeveloperEvent::HotReloadChanged(self.hot_reload)
    }
}

}
