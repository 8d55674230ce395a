//! The memory subsystem: byte-capability regions, the address-bus
//! abstraction over them, and a flat bus for exercising the engine.

mod address;
mod memcell;
mod readonly;
mod testadd;
mod video;
mod work;

pub use address::bus_write8;
pub use address::AddressBus;
pub use memcell::Memory;
pub use readonly::ReadOnly;
pub use testadd::TestAddressing;
pub use video::Video;
pub use work::Work;
