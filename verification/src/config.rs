use vstd::prelude::*;
use vstd::string::*;

verus! {

/// Window configuration: title and size in logical pixels.
pub struct Config {
    pub title: String,
    pub width: u32,
    pub height: u32,
}

impl Default for Config {
    /// An 800 x 600 window titled "Window Title".
    fn default() -> (c: Self)
        ensures
            c.title@ == "Window Title"@,
            c.width == 800,
            c.height == 600,
    {
        Config { title: String::from_str("Window Title"), width: 800, height: 600 }
    }
}

} // verus!
