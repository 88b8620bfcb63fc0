//! Pairwise read alignment for variant display: a global affine-gap aligner,
//! renderers that turn an edit trace into parallel display lines, read window
//! selection around an indel and the highlight range of a variant.

pub mod trace;
pub mod aligner;
pub mod render;
pub mod multi;
pub mod window;
pub mod highlight;
pub mod single;
pub mod laws;
