use vstd::prelude::*;

verus! {

/// Display section of the settings: size of the window in pixels and whether
/// it covers the whole screen.
#[derive(Clone, Copy, Debug, PartialEq, Eq, Structural)]
pub struct Display {
    pub width: u32,
    pub height: u32,
    pub fullscreen: bool,
}

} // verus!
