use vstd::prelude::*;

use crate::coords::ChunkPos;

verus! {

#[verifier::external_type_specification]
#[verifier::external_body]
pub struct ExIoError(std::io::Error);

/// Domain errors for world simulation and chunk persistence.
#[derive(Debug)]
pub enum WorldError {
    /// A chunk coordinate is out of valid bounds.
    OutOfBounds(ChunkPos),
    /// An I/O failure during a chunk file operation.
    Io(std::io::Error),
    /// Chunk data is corrupt or in an invalid format; the text says how.
    Corruption(String),
    /// The chunk at this coordinate is not loaded in the active grid.
    ChunkNotFound(ChunkPos),
}

} // verus!
