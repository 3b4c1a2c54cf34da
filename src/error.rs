use vstd::prelude::*;

verus! {

/// Reasons a sprite, an animation or a canvas cannot be built.
#[derive(Debug, Clone, Copy, PartialEq, Eq, Structural)]
pub enum ConfigError {
    /// The pattern has no rows, or its rows have no characters.
    EmptyPattern,
    /// Two rows of the pattern differ in length.
    RaggedRows,
    /// An animation was given no frames.
    NoFrames,
    /// An animation was given a frame duration of zero.
    ZeroDuration,
    /// A canvas was given a zero width or height.
    EmptyCanvas,
    /// A half-block canvas was given an odd height.
    OddHeight,
}

} // verus!
