//! An instruction-level emulator of the Intel 8080, the processor of the
//! Space Invaders arcade board.
//!
//! The crate models the whole machine — registers, flags, a 64 KiB address
//! space partitioned into read-only, work and video regions — as a ghost
//! [`machine::Machine`], and proves that the fetch-decode-execute engine
//! [`cpu::Cpu`] implements the instruction semantics [`isa::step_spec`]
//! exactly, for all 256 opcode values.

pub mod cpu;
pub mod display;
pub mod invaders;
pub mod io;
pub mod isa;
pub mod laws;
pub mod machine;
pub mod memory;
pub mod motherboard;
pub mod register;
pub mod util;

pub use cpu::Cpu;
pub use display::{get_color, render_frame, HEIGHT, WIDTH};
pub use invaders::{GameKey, InvadersAddressBus, InvadersIO, InvadersLaunch, CYCLES_PER_HALF_FRAME};
pub use io::{NullIO, IO};
pub use laws::{lemma_alu_flags, lemma_call_ret_roundtrip, lemma_daa_flags, lemma_dcr_flags,
    lemma_inr_flags, lemma_pack_flags_roundtrip, lemma_push_pop_psw, lemma_push_pop_roundtrip};
pub use machine::Machine;
pub use memory::{AddressBus, Memory, ReadOnly, TestAddressing, Video, Work};
pub use motherboard::MotherBoard;
pub use register::Register;
pub use util::U16Util;
