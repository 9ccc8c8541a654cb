//! The logical size of the game window, published once at startup so that
//! layout code does not have to query the windowing layer.

use vstd::prelude::*;

verus! {

/// Width and height of the primary window, in pixels.
#[derive(Clone, Copy, PartialEq, Eq, Structural, Debug)]
pub struct WindowSize {
    pub width: u32,
    pub height: u32,
}

} // verus!
