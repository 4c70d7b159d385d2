//! The colors used by the display host, named by role.
//!
//! Each channel is held in thousandths, so that a display host can scale
//! a channel to its own unit interval.

use vstd::prelude::*;

verus! {

/// A named color of the palette.
#[derive(Debug, PartialEq, Eq, Clone, Copy, Structural)]
pub enum CustomColor {
    Normal,
    Hovered,
    Pressed,
    Disabled,
    Component,
    Player,
    System,
    User,
    Enemy,
}

impl CustomColor {
    /// The red, green and blue channels of the color, in thousandths.
    pub open spec fn spec_rgb_milli(self) -> (u32, u32, u32) {
        match self {
            CustomColor::Normal => (0u32, 400u32, 0u32),
            CustomColor::Hovered => (0u32, 450u32, 0u32),
            CustomColor::Pressed => (0u32, 400u32, 0u32),
            CustomColor::Disabled => (0u32, 450u32, 0u32),
            CustomColor::Component => (100u32, 100u32, 100u32),
            CustomColor::Player => (0u32, 500u32, 0u32),
            CustomColor::System => (500u32, 0u32, 500u32),
            CustomColor::User => (0u32, 0u32, 500u32),
            CustomColor::Enemy => (500u32, 0u32, 0u32),
        }
    }

    /// The red, green and blue channels of the color, in thousandths.
    pub fn rgb_milli(&self) -> (r: (u32, u32, u32))
        ensures
            r == self.spec_rgb_milli(),
    {
        match *self {
            CustomColor::Normal => (0, 400, 0),
            CustomColor::Hovered => (0, 450, 0),
            CustomColor::Pressed => (0, 400, 0),
            CustomColor::Disabled => (0, 450, 0),
            CustomColor::Component => (100, 100, 100),
            CustomColor::Player => (0, 500, 0),
            CustomColor::System => (500, 0, 500),
            CustomColor::User => (0, 0, 500),
            CustomColor::Enemy => (500, 0, 0),
        }
    }
}

} // verus!
