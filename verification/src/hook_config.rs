//! The transfer-hook configuration record: a fixed 51-byte layout that tells
//! the asset ledger which extra account to hand the interceptor on every
//! transfer.
//!
//! Layout: an 8-byte execute discriminator, a 4-byte little-endian list
//! length, a 4-byte little-endian entry count, then one 35-byte entry
//! (a one-byte seed-scheme discriminator, a 32-byte seed configuration, and
//! two flag bytes, signer and writable, both zero).

use vstd::prelude::*;

verus! {

/// Size of one extra-account entry: a discriminator byte, 32 bytes of seed
/// configuration, and the signer and writable flags.
pub const EXTRA_ACCOUNT_META_SIZE: usize = 35;

/// Discriminator of the hook's execute instruction.
pub const EXECUTE_DISCRIMINATOR: [u8; 8] = [105, 37, 101, 197, 75, 251, 102, 26];

/// The configuration that resolves the destination wallet's credential
/// account: entry discriminator 2 (an address derived under another
/// program), seeded by a 10-byte literal tag and 32 bytes read from the
/// destination token account (account index 2) at data offset 32.
pub open spec fn spec_hook_config_credential() -> Seq<u8> {
    EXECUTE_DISCRIMINATOR@ + seq![
        39u8, 0, 0, 0,  // list length 39, little-endian
        1, 0, 0, 0,  // one entry
        2,  // derived under an external program
        10, 0,  // first seed: a literal of length 10
        0, 0, 0, 0, 0, 0, 0, 0, 0, 0,
        32, 2, 2, 32,  // second seed: 32 account-data bytes, account 2, offset 32
        0, 0, 0, 0, 0, 0, 0, 0, 0, 0, 0, 0, 0, 0, 0, 0,
        0, 0,  // not a signer, not writable
    ]
}

/// The configuration that resolves the destination's attestation account:
/// entry discriminator 1 (an address derived from a key), seeded by the
/// 11-byte literal tag `attestation` and the key of account index 2.
pub open spec fn spec_hook_config_attestation() -> Seq<u8> {
    EXECUTE_DISCRIMINATOR@ + seq![
        39u8, 0, 0, 0,  // list length 39, little-endian
        1, 0, 0, 0,  // one entry
        1,  // derived from an account key
        11, 0,  // first seed: a literal of length 11
        97, 116, 116, 101, 115, 116, 97, 116, 105, 111, 110,  // the tag bytes
        1, 1, 2,  // second seed: the key of account 2
        0, 0, 0, 0, 0, 0, 0, 0, 0, 0, 0, 0, 0, 0, 0, 0,
        0, 0,  // not a signer, not writable
    ]
}

/// Builds the hook configuration bytes that make every transfer carry the
/// destination wallet's credential account.
pub fn initialize_extra_account_metas() -> (r: Vec<u8>)
    ensures
        r@ == spec_hook_config_credential(),
        r@.len() == 51,
{
    let r: Vec<u8> = vec![
        105u8, 37, 101, 197, 75, 251, 102, 26,
        39, 0, 0, 0,
        1, 0, 0, 0,
        2,
        10, 0,
        0, 0, 0, 0, 0, 0, 0, 0, 0, 0,
        32, 2, 2, 32,
        0, 0, 0, 0, 0, 0, 0, 0, 0, 0, 0, 0, 0, 0, 0, 0,
        0, 0,
    ];
    proof {
        assert(r@ =~= spec_hook_config_credential());
    }
    r
}

/// Builds the hook configuration bytes that make every transfer carry the
/// destination's attestation account.
pub fn initialize_extra_account_meta_list() -> (r: Vec<u8>)
    ensures
        r@ == spec_hook_config_attestation(),
        r@.len() == 51,
{
    let r: Vec<u8> = vec![
        105u8, 37, 101, 197, 75, 251, 102, 26,
        39, 0, 0, 0,
        1, 0, 0, 0,
        1,
        11, 0,
        97, 116, 116, 101, 115, 116, 97, 116, 105, 111, 110,
        1, 1, 2,
        0, 0, 0, 0, 0, 0, 0, 0, 0, 0, 0, 0, 0, 0, 0, 0,
        0, 0,
    ];
    proof {
        assert(r@ =~= spec_hook_config_attestation());
    }
    r
}

} // verus!
