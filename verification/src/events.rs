//! Audit records.
//!
//! Every successful operation returns one of these records so the caller can
//! emit it to its audit trail; denials carry their diagnosis in the error.
//! Each verified operation pins the record's fields in its contract.

use vstd::prelude::*;

verus! {

/// A property was tokenized.
#[derive(Debug)]
pub struct PropertyInitialized {
    /// Mint address of the new property token.
    pub mint: [u8; 32],
    /// Authority that owns the property.
    pub authority: [u8; 32],
    /// Human-readable property name.
    pub property_name: String,
    /// Token symbol.
    pub property_symbol: String,
    /// Fixed issuance cap.
    pub total_supply: u64,
    /// Physical address of the property.
    pub property_address: String,
    /// When the property was created.
    pub timestamp: i64,
}

/// Tokens were minted to an investor.
#[derive(Debug)]
pub struct TokensMinted {
    /// Mint address of the property token.
    pub mint: [u8; 32],
    /// The investor who received the tokens.
    pub investor: [u8; 32],
    /// How many tokens were minted.
    pub amount: u64,
    /// Circulating supply after the mint.
    pub circulating_supply: u64,
    /// When the mint happened.
    pub timestamp: i64,
}

/// Tokens were burned by an investor.
#[derive(Debug)]
pub struct TokensBurned {
    /// Mint address of the property token.
    pub mint: [u8; 32],
    /// The investor who burned the tokens.
    pub investor: [u8; 32],
    /// How many tokens were burned.
    pub amount: u64,
    /// Circulating supply after the burn.
    pub circulating_supply: u64,
    /// When the burn happened.
    pub timestamp: i64,
}

/// Property details were updated.
#[derive(Debug)]
pub struct PropertyUpdated {
    /// Mint address of the property token.
    pub mint: [u8; 32],
    /// New physical address.
    pub property_address: String,
    /// New total value in USD cents.
    pub total_value_usd: u64,
    /// New rental yield in basis points.
    pub rental_yield_bps: u16,
    /// When the update happened.
    pub timestamp: i64,
}

/// Issuance was enabled or disabled.
#[derive(Debug)]
pub struct PropertyStatusChanged {
    /// Mint address of the property token.
    pub mint: [u8; 32],
    /// The new status.
    pub is_active: bool,
    /// When the status changed.
    pub timestamp: i64,
}

/// A transfer's destination passed the compliance gate.
#[derive(Debug)]
pub struct TransferKycVerified {
    /// Mint address of the property token.
    pub mint: [u8; 32],
    /// Source token account.
    pub source: [u8; 32],
    /// Destination token account.
    pub destination: [u8; 32],
    /// Wallet that owns the destination token account.
    pub destination_owner: [u8; 32],
    /// How many tokens the transfer moves.
    pub amount: u64,
    /// When the check was made.
    pub timestamp: i64,
}

/// The transfer-hook account list was written.
#[derive(Debug)]
pub struct ExtraAccountMetasInitialized {
    /// Mint address the hook configuration belongs to.
    pub mint: [u8; 32],
    /// Address of the configuration account.
    pub extra_account_meta_list: [u8; 32],
    /// When the configuration was written.
    pub timestamp: i64,
}

} // verus!
