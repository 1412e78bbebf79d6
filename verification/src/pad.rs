//! Controller values: which controller a read addresses, and the button
//! bits of the digital sample word.
//!
//! The pad hardware itself is an external collaborator reached over FFI;
//! what belongs to the core is the controller numbering and the meaning of
//! the sampled button bitmask.

use vstd::prelude::*;

verus! {

/// The controller a read addresses. Four controller ports exist,
/// channels 0 through 3.
#[derive(Clone, Copy, Debug, PartialEq, Eq, Structural)]
pub enum Controller {
    One,
    Two,
    Three,
    Four,
}

/// The channel number of each controller port.
pub open spec fn controller_channel(c: Controller) -> int {
    match c {
        Controller::One => 0,
        Controller::Two => 1,
        Controller::Three => 2,
        Controller::Four => 3,
    }
}

impl Controller {
    /// The channel number the pad service addresses this controller by.
    pub fn channel(self) -> (r: u16)
        ensures
            r == controller_channel(self),
    {
        match self {
            Controller::One => 0,
            Controller::Two => 1,
            Controller::Three => 2,
            Controller::Four => 3,
        }
    }
}

/// Whether a sampled channel word addresses `controller`.
pub fn controller_matches(value: u16, controller: Controller) -> (r: bool)
    ensures
        r == (value == controller_channel(controller)),
{
    value == controller.channel()
}

pub const BUTTON_LEFT: u16 = 0x0001;

pub const BUTTON_RIGHT: u16 = 0x0002;

pub const BUTTON_DOWN: u16 = 0x0004;

pub const BUTTON_UP: u16 = 0x0008;

pub const BUTTON_Z: u16 = 0x0010;

pub const BUTTON_R: u16 = 0x0020;

pub const BUTTON_L: u16 = 0x0040;

pub const BUTTON_A: u16 = 0x0100;

pub const BUTTON_B: u16 = 0x0200;

pub const BUTTON_X: u16 = 0x0400;

pub const BUTTON_Y: u16 = 0x0800;

pub const BUTTON_MENU: u16 = 0x1000;

pub const BUTTON_START: u16 = 0x1000;

/// Whether `button`'s bits are all set in a sampled button mask.
pub fn button_pressed(mask: u16, button: u16) -> (r: bool)
    ensures
        r == (mask & button == button),
{
    mask & button == button
}

} // verus!
