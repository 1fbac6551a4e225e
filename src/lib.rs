//! A camera over the celestial sphere: aperture and zoom policy, screen
//! geometry, the derived transforms and the last action of the user.
use vstd::prelude::*;

pub mod canvas;
pub mod coosys;
pub mod math;
pub mod projection;
pub mod viewport;

verus! {

/// The last action done by the user on the camera.
#[derive(PartialEq, Eq, Structural, Clone, Copy, Debug)]
pub enum UserAction {
    Zooming,
    Unzooming,
    Moving,
    Starting,
}

} // verus!
