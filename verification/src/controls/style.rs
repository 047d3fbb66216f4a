//! The "dark ice" panel style: the colour palette the overlay widgets are
//! drawn with. Colour components are thousandths of full intensity, so the
//! palette is exact; the shell divides by a thousand when it hands the
//! values to the GUI toolkit.

use vstd::prelude::*;

verus! {

/// An RGBA colour, each component in [0, 1000] thousandths.
#[derive(Clone, Copy, Debug, PartialEq, Eq, Structural)]
pub struct ColorMilli {
    pub r: u32,
    pub g: u32,
    pub b: u32,
    pub a: u32,
}

impl ColorMilli {
    /// Every component within full intensity.
    pub open spec fn wf(self) -> bool {
        self.r <= 1000 && self.g <= 1000 && self.b <= 1000 && self.a <= 1000
    }
}

/// How a panel container is drawn.
#[derive(Clone, Copy, Debug, PartialEq, Eq, Structural)]
pub struct ContainerStyle {
    pub background: ColorMilli,
    pub border_width: u32,
    pub border_radius: u32,
    pub border_color: ColorMilli,
    pub text_color: ColorMilli,
}

/// How an active button is drawn.
#[derive(Clone, Copy, Debug, PartialEq, Eq, Structural)]
pub struct ButtonStyle {
    pub background: ColorMilli,
    pub text_color: ColorMilli,
    pub border_radius: u32,
}

/// The overlay's colour scheme: translucent dark blue panels with pale text
/// and translucent green buttons.
#[derive(Clone, Copy, Debug, PartialEq, Eq, Structural)]
pub struct DarkIce;

/// The container style the scheme prescribes.
pub open spec fn spec_dark_ice_container() -> ContainerStyle {
    ContainerStyle {
        background: ColorMilli { r: 100, g: 200, b: 300, a: 750 },
        border_width: 5,
        border_radius: 15,
        border_color: ColorMilli { r: 50, g: 100, b: 150, a: 500 },
        text_color: ColorMilli { r: 940, g: 940, b: 1000, a: 1000 },
    }
}

/// The active-button style the scheme prescribes.
pub open spec fn spec_dark_ice_button() -> ButtonStyle {
    ButtonStyle {
        background: ColorMilli { r: 203, g: 745, b: 356, a: 400 },
        text_color: ColorMilli { r: 940, g: 940, b: 1000, a: 1000 },
        border_radius: 3,
    }
}

impl DarkIce {
    /// Container style: every colour is a valid intensity.
    pub fn style(&self) -> (s: ContainerStyle)
        ensures
            s == spec_dark_ice_container(),
            s.background.wf() && s.border_color.wf() && s.text_color.wf(),
    {
        ContainerStyle {
            background: ColorMilli { r: 100, g: 200, b: 300, a: 750 },
            border_width: 5,
            border_radius: 15,
            border_color: ColorMilli { r: 50, g: 100, b: 150, a: 500 },
            text_color: ColorMilli { r: 940, g: 940, b: 1000, a: 1000 },
        }
    }

    /// Active-button style: every colour is a valid intensity.
    pub fn active(&self) -> (s: ButtonStyle)
        ensures
            s == spec_dark_ice_button(),
            s.background.wf() && s.text_color.wf(),
    {
        ButtonStyle {
            background: ColorMilli { r: 203, g: 745, b: 356, a: 400 },
            text_color: ColorMilli { r: 940, g: 940, b: 1000, a: 1000 },
            border_radius: 3,
        }
    }
}

} // verus!
