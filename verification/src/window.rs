//! Plain window configuration values consumed by the host program when it
//! opens the native window whose surface the renderer draws into.

use vstd::prelude::*;

verus! {

/// A window size in pixels.
#[derive(Debug, Clone, Copy, PartialEq, Eq, Structural)]
pub struct Dimensions {
    pub width: u32,
    pub height: u32,
}

/// Initial settings for the native window.
#[derive(Debug, Clone, Copy)]
pub struct WindowSettings {
    pub title: &'static str,
    pub dimensions: Dimensions,
    pub resizable: bool,
}

} // verus!
