//! Compliance-gated tokenization of fractional asset ownership with
//! proportional dividend distribution.
//!
//! The crate verifies the three pieces that must never drift apart:
//! a supply-bounded issuance ledger, a compliance gate re-checked on every
//! balance-changing event, and a dividend ledger that snapshots eligible
//! supply at deposit time and pays each holder at most once.

use vstd::prelude::*;

mod account;
mod compliance;
mod credential;
mod errors;
mod events;
mod hook_config;
mod property;
mod revenue;
mod sas;
mod transfer;
mod wire;

pub use account::RawAccount;
pub use compliance::{
    credential_pda_of, derive_hub_credential_pda, hub_credential_exists,
    lemma_gate_deny_classification, spec_gate_decision, verify_hub_credential,
    HubCredentialVerified,
};
pub use credential::{HubCredential, HubCredentialStatus, HubCredentialType};
pub use errors::RwaError;
pub use events::{
    ExtraAccountMetasInitialized, PropertyInitialized, PropertyStatusChanged, PropertyUpdated,
    TokensBurned, TokensMinted, TransferKycVerified,
};
pub use hook_config::{
    initialize_extra_account_meta_list, initialize_extra_account_metas, EXECUTE_DISCRIMINATOR,
    EXTRA_ACCOUNT_META_SIZE,
};
pub use property::{
    lemma_mint_cap_enforced, lemma_mint_requires_compliance, spec_byte_len, spec_create_decision,
    spec_details_decision, spec_mint_decision, PropertyDetails, PropertyState,
    MAX_METADATA_URI_LEN, MAX_PROPERTY_ADDRESS_LEN, MAX_PROPERTY_NAME_LEN,
    MAX_PROPERTY_SYMBOL_LEN, MAX_PROPERTY_TYPE_LEN, MAX_RENTAL_YIELD_BPS, MIN_RENTAL_YIELD_BPS,
};
pub use revenue::{
    deposit_revenue, lemma_claim_at_most_once, lemma_claims_conservation,
    lemma_full_distribution_bounds, spec_balance_total, spec_claim_share, spec_claimed_total,
    spec_deposit_decision, spec_distinct_investors, spec_has_claim, spec_share_total, ClaimRecord,
    RevenueClaimed, RevenueDeposited, RevenueEpoch, RevenueVault,
};
pub use transfer::{execute_checked_transfer, transfer_hook_execute};
pub use sas::{
    get_attestation_expiration, is_sas_attestation, verify_sas_attestation,
    verify_sas_attestation_with_grace_period, SasAttestation, SasVerificationFailed,
    SasVerificationSuccess,
};

