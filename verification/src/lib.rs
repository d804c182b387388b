//! A stateful, fixed-frame-size audio denoising pipeline behind a
//! foreign-friendly boundary.
//!
//! The crate verifies the frame-streaming protocol and the handle lifecycle
//! around an opaque, stateful denoising engine:
//!
//! - [`engine`]: the engine itself — created with fresh state, fed frames of
//!   exactly [`engine::FRAME_SIZE`] samples, advancing its internal state on
//!   every accepted frame and never on a rejected one.
//! - [`chunk`]: the adapter that feeds an arbitrary-length sample buffer to a
//!   private engine frame by frame, zero-padding the final short frame and
//!   trimming the output back to the input length.
//! - [`table`]: the raw calling convention — integer handles checked against a
//!   table of live engines, with every failure reported as a status code
//!   instead of a fault.
//!
//! A sample crosses the boundary as the 32-bit pattern of its amplitude; no
//! part of this crate ever interprets that pattern.

pub mod chunk;
pub mod engine;
pub mod table;

pub use crate::chunk::denoise_audio_chunk;
pub use crate::engine::DenoiseError;
pub use crate::engine::WasmDenoiseState;
pub use crate::engine::FRAME_SIZE;
pub use crate::table::create_denoise_state;
pub use crate::table::destroy_denoise_state;
pub use crate::table::process_frame;
pub use crate::table::HandleTable;
