//! The asset-pool creation command's payload. Creating the pool itself is
//! delegated entirely to the external token service; this core only
//! carries the naming.

use vstd::prelude::*;

verus! {

/// What a new asset pool is titled on creation.
#[derive(Debug)]
pub struct CreateTokenArgs {
    pub nft_title: String,
    pub nft_symbol: String,
    pub nft_uri: String,
}

} // verus!
