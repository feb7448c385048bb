//! Reader for the level files of an OpenSpace-engine game: the main level
//! file, its pointer file and the fixed level file.
//!
//! Every parser works on byte buffers and byte positions and states its
//! result as a spec function over the bytes.

pub mod error;
pub mod primitives;
pub mod bytes;
pub mod files;
pub mod sequence;
pub mod texture;
pub mod object_type;
pub mod material;
pub mod pointers;
pub mod header;
pub mod level;
