//! Chunk geometry: which block faces are drawn (one per visible face, or merged into
//! rectangles), the columns sampled for distant sloped terrain, sub-chunk section
//! connectivity and the face rules they share.

pub mod connectivity;
pub mod greedy;
pub mod helpers;
pub mod sloped;
pub mod standard;
