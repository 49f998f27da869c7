//! Decoding of a linear-PCM audio container and an amplitude estimate over a
//! fixed window of its samples.
pub mod cursor;
pub mod locate;
pub mod config;
pub mod header;
pub mod samples;
pub mod normalize;
pub mod spectrum;
pub mod pipeline;
