use vstd::prelude::*;

verus! {

/// Library-level error kinds.
#[derive(Clone, Copy, Debug, PartialEq, Eq, Structural)]
pub enum ToolError {
    /// A stream or file could not be opened, read or written.
    Io,
    /// Base64 text is malformed.
    Encoding,
    /// Key material is absent, of the wrong kind, or of the wrong length.
    Key,
    /// The secure random source is unavailable.
    Randomness,
}

} // verus!
