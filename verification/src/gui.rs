//! The stock look of the tool.

use vstd::prelude::*;

verus! {

/// Marks the layout and style that the tool comes with.
#[derive(Clone, Copy, Debug, PartialEq, Eq, Structural)]
pub struct DefaultGui;

impl Default for DefaultGui {
    fn default() -> (gui: DefaultGui)
        ensures
            gui == DefaultGui,
    {
        DefaultGui
    }
}

} // verus!
