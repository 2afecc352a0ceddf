use vstd::prelude::*;

verus! {

/// The keys that the components react to; every other key is `Other`.
#[derive(Debug, Clone, Copy, PartialEq, Eq, Structural)]
pub enum Key {
    Up,
    Down,
    Enter,
    Esc,
    PageUp,
    PageDown,
    Backspace,
    Char(char),
    Other,
}

} // verus!
