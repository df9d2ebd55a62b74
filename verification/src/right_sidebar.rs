//! The right sidebar, which hosts AI and plugin views drawn by the UI layer.
use vstd::prelude::*;

verus! {

/// The right sidebar.
pub struct RightSidebar;

impl RightSidebar {
    pub fn new() -> (res: Self) {
        RightSidebar
    }
}

} // verus!
