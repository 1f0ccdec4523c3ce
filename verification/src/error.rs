//! Error taxonomy of the engine.

use vstd::prelude::*;

verus! {

/// Everything that can go wrong inside the engine itself. Failures of the
/// external collaborators that execute the emitted intents are the host's
/// to report and are not represented here.
#[derive(Clone, Copy, Debug, PartialEq, Eq, Structural)]
pub enum ErrorCode {
    /// Wrong admin authority for offset state.
    InvalidAdminAuthority,
    /// Wrong mint authority for offset state.
    InvalidMintAuthority,
    /// Invalid offset metadata record for this subject.
    InvalidOffsetMetadata,
    /// The tier table is empty; no lookup is possible.
    NoOffsetTiers,
    /// The subject's backing resource is inactive; no update is allowed.
    InvalidUpdateForMint,
}

impl ErrorCode {
    /// A human-readable description of the error.
    pub fn message(&self) -> (r: &'static str)
        ensures
            *self == ErrorCode::InvalidAdminAuthority ==> r@ == "Wrong admin authority for offset state"@,
            *self == ErrorCode::InvalidMintAuthority ==> r@ == "Wrong mint authority for offset state"@,
            *self == ErrorCode::InvalidOffsetMetadata ==> r@ == "Invalid offset metadata pda"@,
            *self == ErrorCode::NoOffsetTiers ==> r@ == "Invalid offset tiers pda"@,
            *self == ErrorCode::InvalidUpdateForMint ==> r@ == "Invalid update for mint"@,
    {
        match self {
            ErrorCode::InvalidAdminAuthority => "Wrong admin authority for offset state",
            ErrorCode::InvalidMintAuthority => "Wrong mint authority for offset state",
            ErrorCode::InvalidOffsetMetadata => "Invalid offset metadata pda",
            ErrorCode::NoOffsetTiers => "Invalid offset tiers pda",
            ErrorCode::InvalidUpdateForMint => "Invalid update for mint",
        }
    }
}

} // verus!
