//! Billboard sprites: a texture layer placed on the grid plane.

use vstd::prelude::*;

verus! {

/// One sprite instance: which texture layer it samples, where it sits and
/// how it is stretched. Coordinates and scales are thousandths.
#[derive(Clone, Copy, Debug, PartialEq, Eq, Structural)]
pub struct Sprite {
    /// Texture layer the sprite samples.
    pub image: u32,
    /// Grid-plane position, thousandths.
    pub x_milli: i64,
    pub y_milli: i64,
    /// Scale on each axis, thousandths.
    pub scale_x_milli: i64,
    pub scale_y_milli: i64,
}

/// The one decorative sprite the scene places at start-up: layer 0 at
/// (8, 7.5), unscaled.
pub open spec fn spec_decorative_sprite() -> Sprite {
    Sprite { image: 0, x_milli: 8000, y_milli: 7500, scale_x_milli: 1000, scale_y_milli: 1000 }
}

/// Build the decorative sprite.
pub fn decorative_sprite() -> (s: Sprite)
    ensures
        s == spec_decorative_sprite(),
{
    Sprite { image: 0, x_milli: 8000, y_milli: 7500, scale_x_milli: 1000, scale_y_milli: 1000 }
}

} // verus!
