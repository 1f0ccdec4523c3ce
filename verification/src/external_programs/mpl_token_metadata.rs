//! The token-metadata registry program that executes display updates and
//! grouping membership changes.

use vstd::prelude::*;

use crate::state::Pubkey;

verus! {

/// First half of the token-metadata program's well-known address.
pub const MPL_TOKEN_METADATA_ID_HI: u128 = 0x0b7065b1e3d17c45389d527f6b04c3cd;

/// Second half of the token-metadata program's well-known address.
pub const MPL_TOKEN_METADATA_ID_LO: u128 = 0x58b86c731aa0fdb549b6d1bc03f82946;

/// The external token-metadata program. The engine only needs its address,
/// to tell the host which program the display and grouping intents are for.
#[derive(Clone, Copy, Debug, PartialEq, Eq, Structural)]
pub struct MplTokenMetadata;

impl MplTokenMetadata {
    /// The program's well-known address.
    pub fn id() -> (r: Pubkey)
        ensures
            r.hi == MPL_TOKEN_METADATA_ID_HI,
            r.lo == MPL_TOKEN_METADATA_ID_LO,
    {
        Pubkey::new(MPL_TOKEN_METADATA_ID_HI, MPL_TOKEN_METADATA_ID_LO)
    }
}

} // verus!
