//! Single-copy digital assets with a fixed revenue split between two parties.
//!
//! The program keeps one settings record per authority and mints assets whose
//! metadata carries the split of that record. Each operation is planned here
//! as a list of steps: calls into the account-creation service, the token
//! ledger and the metadata registry, and writes into records of the program.
//! Whoever hosts the program runs the steps in order within the transaction
//! of the request, which fails as a whole when one of them fails: nothing of
//! an operation is left behind unless all of it is done.

use crate::pubkey::Pubkey;
use vstd::prelude::*;

pub mod account;
pub mod collaborators;
pub mod encoding;
pub mod error;
pub mod instruction;
pub mod processor;
pub mod pubkey;
pub mod state;
pub mod utils;

verus! {

/// The identity of this program on the ledger. In the ledger's notation:
/// `5Hu2bnTxd1mPXNHqMzFfB5SUFEvYW7GG3nPSQ1VWvTK`.
pub const ID: [u8; 32] = [
    1, 25, 109, 195, 154, 197, 141, 69, 107, 80, 142, 137, 0, 139, 238, 210,
    131, 12, 237, 231, 190, 47, 49, 206, 236, 236, 250, 8, 116, 37, 112, 242,
];

/// The identity of this program on the ledger.
pub fn id() -> (key: Pubkey)
    ensures
        key@ == ID@,
{
    Pubkey::new_from_array(ID)
}

/// Whether `key` is the identity of this program.
pub fn check_id(key: &Pubkey) -> (same: bool)
    ensures
        same == (key@ == ID@),
{
    *key == Pubkey::new_from_array(ID)
}

} // verus!
