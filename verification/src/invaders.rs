//! The Space Invaders arcade board: its memory map, its input ports, and
//! the frame-paced driver state.

mod gameio;
mod launch;
mod siaddressing;

pub use gameio::{GameKey, InvadersIO};
pub use launch::InvadersLaunch;
pub use launch::CYCLES_PER_HALF_FRAME;
pub use siaddressing::InvadersAddressBus;
