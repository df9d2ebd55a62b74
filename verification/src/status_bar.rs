//! The status bar: plugin entries split between its two ends.
use vstd::prelude::*;

use crate::action::PluginAction;
use crate::text::owned;

verus! {

/// Which end of the status bar an entry sits at.
#[derive(Clone, Copy, Debug, PartialEq, Eq, Structural)]
pub enum StatusBarAlignment {
    Left,
    Right,
}

/// An entry a plugin puts on the status bar.
pub struct StatusBarItem {
    pub text: String,
    pub command: Option<String>,
    pub alignment: StatusBarAlignment,
}

/// The status bar (its frame-time display is drawn by the UI layer).
pub struct StatusBar;

impl StatusBar {
    pub fn new() -> (res: Self) {
        StatusBar
    }

    /// The indices of the entries at each end, left then right, each in order.
    pub fn split_items(items: &Vec<StatusBarItem>) -> (res: (Vec<usize>, Vec<usize>))
        ensures
            res.0@.map_values(|i: usize| i as int) == Seq::new(items@.len(), |i: int| i).filter(
                |i: int| items@[i].alignment == StatusBarAlignment::Left,
            ),
            res.1@.map_values(|i: usize| i as int) == Seq::new(items@.len(), |i: int| i).filter(
                |i: int| items@[i].alignment == StatusBarAlignment::Right,
            ),
    {
        let ghost all = Seq::new(items@.len(), |i: int| i);
        let ghost is_left = |i: int| items@[i].alignment == StatusBarAlignment::Left;
        let ghost is_right = |i: int| items@[i].alignment == StatusBarAlignment::Right;
        let mut left: Vec<usize> = Vec::new();
        let mut right: Vec<usize> = Vec::new();
        let mut i: usize = 0;
        while i < items.len()
            invariant
                i <= items@.len(),
                all == Seq::new(items@.len(), |i: int| i),
                is_left == (|i: int| items@[i].alignment == StatusBarAlignment::Left),
                is_right == (|i: int| items@[i].alignment == StatusBarAlignment::Right),
                left@.map_values(|i: usize| i as int) == all.take(i as int).filter(is_left),
                right@.map_values(|i: usize| i as int) == all.take(i as int).filter(is_right),
            decreases items@.len() - i,
        {
            assert(all.take((i + 1) as int).drop_last() =~= all.take(i as int));
            assert(all.take((i + 1) as int).last() == i as int);
            reveal_with_fuel(Seq::filter, 1);
            match items[i].alignment {
                StatusBarAlignment::Left => {
                    left.push(i);
                    assert(left@.map_values(|i: usize| i as int) =~= all.take(i as int).filter(is_left).push(i as int));
                },
                StatusBarAlignment::Right => {
                    right.push(i);
                    assert(right@.map_values(|i: usize| i as int) =~= all.take(i as int).filter(is_right).push(i as int));
                },
            }
            i = i + 1;
        }
        assert(all.take(i as int) =~= all);
        (left, right)
    }

    /// The action of the problem counter on the status bar: open the problem list.
    pub fn problems_action() -> (res: PluginAction)
        ensures
            res matches PluginAction::OpenPanel { id } && id@ == "problems"@,
    {
        PluginAction::OpenPanel { id: owned("problems") }
    }
}

} // verus!
