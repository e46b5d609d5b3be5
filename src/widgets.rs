//! A placeholder widget the mixer view draws as a filled block.

use vstd::prelude::*;

verus! {

/// A test widget with no state of its own.
#[derive(Clone, Copy, Debug, Default, PartialEq, Eq, Structural)]
pub struct Rainbow;

impl Rainbow {
    /// The widget.
    pub fn new() -> (r: Rainbow)
        ensures
            r == Rainbow,
    {
        Rainbow
    }
}

/// Shorthand for `Rainbow::new`.
pub fn rainbow() -> (r: Rainbow)
    ensures
        r == Rainbow,
{
    Rainbow
}

} // verus!
