//! The address of this program.

use vstd::prelude::*;
use crate::pubkey::Pubkey;

verus! {

/// The address that this program is deployed at.
pub open spec fn spec_id() -> Pubkey {
    Pubkey(
        [
            7u8, 96, 203, 6, 115, 115, 254, 229, 98, 138, 189, 166, 63, 176, 77, 227, 140, 192, 85,
            126, 68, 6, 214, 211, 136, 158, 135, 172, 16, 135, 103, 142,
        ],
    )
}

/// The address that this program is deployed at.
pub fn id() -> (key: Pubkey)
    ensures
        key == spec_id(),
{
    Pubkey(
        [
            7u8, 96, 203, 6, 115, 115, 254, 229, 98, 138, 189, 166, 63, 176, 77, 227, 140, 192, 85,
            126, 68, 6, 214, 211, 136, 158, 135, 172, 16, 135, 103, 142,
        ],
    )
}

} // verus!
