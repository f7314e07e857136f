//! The window the engine opens.
use vstd::prelude::*;

verus! {

/// Title and size of the window.
#[derive(Clone, Debug)]
pub struct VWindowConfig {
    pub title: String,
    pub width: u32,
    pub height: u32,
}

impl VWindowConfig {
    /// "My Window", 1000 x 600.
    pub fn default() -> (c: Self)
        ensures
            c.title@ == "My Window"@,
            c.width == 1000,
            c.height == 600,
    {
        VWindowConfig { title: String::from_str("My Window"), width: 1000, height: 600 }
    }
}

} // verus!
