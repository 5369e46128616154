//! The colors widgets draw with.

use vstd::prelude::*;
use crate::term::Color;

verus! {

/// A selection of colors to use for rendering.
#[derive(Copy, Clone, Debug, PartialEq, Eq, Structural)]
pub struct Theme {
    pub bg: Color,
    pub fg: Color,
    pub hi: Color,
}

/// The default theme: a near-black background, white text, yellow highlights.
pub open spec fn default_theme() -> Theme {
    Theme { bg: Color::AnsiValue(232), fg: Color::White, hi: Color::Yellow }
}

impl Default for Theme {
    fn default() -> (r: Self)
        ensures
            r == default_theme(),
    {
        Theme { bg: Color::AnsiValue(232), fg: Color::White, hi: Color::Yellow }
    }
}

} // verus!
