//! Keyboard layouts.
use vstd::prelude::*;

verus! {

/// Keyboard layouts, used to convert between key-code types.
#[derive(Debug, Clone, Copy, PartialEq, Eq, Structural)]
pub enum Keyboard {
    /// US keyboard layout (default)
    US,
    /// UK keyboard layout
    UK,
}

impl Default for Keyboard {
    fn default() -> (r: Keyboard)
        ensures
            r == Keyboard::US,
    {
        Keyboard::US
    }
}

/// Whether a record with layout tag `tag` belongs to the partition of
/// `layout`: an absent tag belongs to every layout.
pub open spec fn applies_to(tag: Option<Keyboard>, layout: Keyboard) -> bool {
    match tag {
        None => true,
        Some(t) => t == layout,
    }
}

/// Executable form of `applies_to`.
pub fn tag_applies(tag: Option<Keyboard>, layout: Keyboard) -> (r: bool)
    ensures
        r == applies_to(tag, layout),
{
    match tag {
        None => true,
        Some(t) => t == layout,
    }
}

} // verus!
