//! The fixed identities that a deployment is configured with.

use vstd::prelude::*;
use crate::identity::{
    ed25519_program_id, parsed_identity, pubkey_from_text, Identity, SIGNATURE_MODULE_ADDRESS,
};

verus! {

/// Address of the oracle that attests lifetime rewards.
pub const ORACLE_ADDRESS: &'static str = "oraXrapkbpe6pCVJ2sm3MRZAdyemtWXyGg4W6mGarjL";

/// The identities that requests are checked against. They are handed to every
/// operation that needs them, so that a deployment, or a test with a mock
/// oracle, can choose its own.
#[derive(Clone, Copy, Debug, PartialEq, Eq)]
pub struct Config {
    /// The identity whose signature attests lifetime rewards.
    pub oracle: Identity,
    /// Identifier of the module whose operations are signature proofs.
    pub signature_module: Identity,
}

impl Config {
    /// The configuration of the public deployment: the oracle at
    /// [`ORACLE_ADDRESS`] and the signature-verification module at
    /// [`SIGNATURE_MODULE_ADDRESS`]. `None` if the oracle's address stands for
    /// no identity.
    pub fn well_known() -> (config: Option<Config>)
        ensures
            config is Some <==> parsed_identity(ORACLE_ADDRESS@) is Some,
            config matches Some(c) ==> {
                &&& parsed_identity(ORACLE_ADDRESS@) == Some(c.oracle@)
                &&& parsed_identity(SIGNATURE_MODULE_ADDRESS@) == Some(c.signature_module@)
            },
    {
        match pubkey_from_text(ORACLE_ADDRESS) {
            Some(oracle) => Some(Config { oracle, signature_module: ed25519_program_id() }),
            None => None,
        }
    }
}

} // verus!
