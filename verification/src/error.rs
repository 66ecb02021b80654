//! The ways in which decoding a feed can fail.

use vstd::prelude::*;

verus! {

/// Why a payload could not be decoded.
#[derive(Debug, Clone, Copy, PartialEq, Eq, Structural)]
pub enum DecodeError {
    /// The text is not a JSON document.
    Syntax,
    /// The document is JSON, but a required part is absent or has the wrong
    /// kind of value.
    Shape,
    /// The box score carries no player statistics and no roster was supplied
    /// to take the players from.
    RosterRequired,
}

} // verus!
