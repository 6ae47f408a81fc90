//! The engine-wide state that the focus rules read.
use vstd::prelude::*;
use crate::tree::Tree;
use crate::types::RootProps;

verus! {

/// The trap service: which trap is active and which elements make it up.
#[derive(Clone, Debug)]
pub struct ModalizerAPI {
    pub active_id: Option<String>,
    pub active_elements: Vec<usize>,
}

/// Engine state shared by every query.
#[derive(Clone, Debug)]
pub struct TabsterCore {
    /// Present once traps are in use.
    pub modalizer: Option<ModalizerAPI>,
    /// The element that has focus.
    pub focused: Option<usize>,
    /// A keyboard navigation is in progress.
    pub is_tabbing: bool,
    /// When set, a scope is assumed at the body for elements outside any scope.
    pub auto_root: Option<RootProps>,
    pub body: Option<usize>,
}

/// The body the state names lies in the tree.
pub open spec fn env_fits(t: Tree, env: TabsterCore) -> bool {
    env.body matches Some(b) ==> b < t.len()
}

impl TabsterCore {
    /// No trap service, nothing focused, no automatic scope.
    pub fn new() -> (r: TabsterCore)
        ensures
            r.modalizer.is_none(),
            r.focused.is_none(),
            !r.is_tabbing,
            r.auto_root.is_none(),
            r.body.is_none(),
    {
        TabsterCore { modalizer: None, focused: None, is_tabbing: false, auto_root: None, body: None }
    }

    /// The id of the active trap, if any.
    pub open spec fn active_id(&self) -> Option<String> {
        match self.modalizer {
            Some(m) => m.active_id,
            None => None,
        }
    }

    pub fn get_active_id(&self) -> (r: Option<String>)
        ensures
            r == self.active_id(),
    {
        match &self.modalizer {
            Some(m) => m.active_id.clone(),
            None => None,
        }
    }
}

} // verus!
