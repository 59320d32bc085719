//! Verified core of a native WebP decoding boundary: the checks and the
//! bounds-checked, vertically flipping pixel copy that stand between a codec
//! and a caller's pixel buffer.
pub mod flip;
pub mod frame;
pub mod laws;
pub mod path;
pub mod status;
