//! A pull-driven adapter that runs a raw DEFLATE coder over a sequence of byte chunks.
pub mod adapter;
pub mod coder;
pub mod deflate;
pub mod laws;

pub use adapter::{CoderAdapter, Phase, Step, Upstream, Verdict};
pub use coder::{Coder, CoderError, MAX_LEVEL};
pub use deflate::{DeflateDecoder, DeflateEncoder};
