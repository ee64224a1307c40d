//! The verified core of a small renderer that draws one static triangle mesh:
//! flattening an indexed mesh into interleaved vertices, the description of the
//! render pipeline, the swap-chain life cycle and the frame loop's decisions.
//!
//! Floating-point values never appear here. A 32-bit float is carried as its
//! IEEE-754 bit pattern in a `u32`; the one float operation of the flattener,
//! the uniform scale of positions, is handed in by the caller as a function on
//! bit patterns.

pub mod mesh;
pub mod swap_chain;
pub mod frame_loop;
pub mod pipeline;
pub mod render_pass;
pub mod device;
pub mod failure;
