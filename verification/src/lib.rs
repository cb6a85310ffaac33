//! Planning, sequencing and decoding for one-shot image generation on a GPU
//! compute queue.
//!
//! The library decides everything about one image build that does not need
//! the device itself: how large the buffers are, how many workgroups cover
//! the image, which commands are recorded in which order, which step comes
//! next, which failure each refused step stands for, and how the bytes read
//! back from the staging buffer are to be interpreted. The caller owns the
//! device handles, performs each requested step and reports what came of it.

pub mod command;
pub mod decode;
pub mod error;
pub mod generation;
pub mod size;
