use vstd::prelude::*;

verus! {

/// Why a level file could not be read.
#[derive(Debug, Clone, Copy, PartialEq, Eq, Structural)]
pub enum ParseError {
    /// A field ran past the end of its buffer.
    Eof,
    /// A stored offset (plus the four-byte header that every offset skips)
    /// points past the end of its buffer.
    OutOfBounds,
    /// The pointer table names a file other than the fixed level (0) or the
    /// main level (1).
    FileIdOutOfRange,
    /// An animated texture's offset word is zero, so it names no texture.
    MissingTexture,
    /// The fixed level claims more textures than the level holds in all.
    TooManyFixTextures,
}

} // verus!
