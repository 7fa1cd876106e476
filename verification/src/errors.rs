//! Error taxonomy for every operation of the library.
//!
//! Each verified operation states in its contract exactly which variant it
//! returns on which inputs, so the variants double as a machine-checked
//! failure classification.

use vstd::prelude::*;

verus! {

/// Every way an operation of this library can fail.
#[derive(Clone, Copy, Debug, PartialEq, Eq, Structural)]
pub enum RwaError {
    /// Caller is not the recorded property authority.
    Unauthorized,
    /// Property name exceeds the maximum length.
    PropertyNameTooLong,
    /// Property symbol exceeds the maximum length.
    PropertySymbolTooLong,
    /// Total supply must be greater than zero.
    InvalidTotalSupply,
    /// Minting would push circulating supply above the fixed cap.
    ExceedsMaxSupply,
    /// Property is not active, so issuance is disabled.
    PropertyNotActive,
    /// The referenced mint does not belong to the property.
    InvalidMint,
    /// Credential missing, malformed, from an untrusted source, or for
    /// another subject.
    KycVerificationRequired,
    /// Rental yield outside the accepted range of basis points.
    InvalidRentalYield,
    /// Attestation expiration timestamp has passed.
    SasAttestationExpired,
    /// Attestation is not marked valid by its issuer.
    SasAttestationNotVerified,
    /// Attestation account is not owned by the attestation service.
    InvalidSasProgram,
    /// Property address exceeds the maximum length.
    PropertyAddressTooLong,
    /// Property type exceeds the maximum length.
    PropertyTypeTooLong,
    /// Metadata URI exceeds the maximum length.
    MetadataUriTooLong,
    /// Holder balance is too small for the requested operation.
    InsufficientBalance,
    /// Deposit amount must be greater than zero.
    InvalidAmount,
    /// No tokens are in circulation, so revenue cannot be distributed.
    NoTokenHolders,
    /// Arithmetic result does not fit the target integer type.
    MathOverflow,
    /// Proportional share rounds down to zero.
    ClaimTooSmall,
    /// Epoch custody holds less than the computed share.
    InsufficientVaultBalance,
    /// Epoch does not belong to the referenced property.
    InvalidEpoch,
    /// Epoch is not finalized, so claims are not open yet.
    EpochNotFinalized,
    /// Credential expired, by stored status or by timestamp.
    CredentialExpired,
    /// Credential was revoked by its issuer.
    CredentialRevoked,
    /// Credential is not valid.
    InvalidCredential,
    /// Credential is suspended by its issuer.
    CredentialSuspended,
    /// A claim for this (epoch, holder) pair is already recorded.
    DuplicateClaim,
}

impl RwaError {
    /// Diagnostic text for logs; the caller decides where it goes.
    pub fn message(&self) -> &'static str {
        match self {
            RwaError::Unauthorized => "Unauthorized: Only property authority can perform this action",
            RwaError::PropertyNameTooLong => "Property name too long (max 50 characters)",
            RwaError::PropertySymbolTooLong => "Property symbol too long (max 10 characters)",
            RwaError::InvalidTotalSupply => "Invalid total supply: must be greater than zero",
            RwaError::ExceedsMaxSupply => "Exceeds maximum supply: cannot mint more tokens than total supply",
            RwaError::PropertyNotActive => "Property is not active: minting is disabled",
            RwaError::InvalidMint => "Invalid mint account",
            RwaError::KycVerificationRequired => "KYC verification required: attestation not found or invalid",
            RwaError::InvalidRentalYield => "Invalid rental yield: must be between 0 and 10000 basis points",
            RwaError::SasAttestationExpired => "SAS attestation expired",
            RwaError::SasAttestationNotVerified => "SAS attestation not verified",
            RwaError::InvalidSasProgram => "Invalid SAS program",
            RwaError::PropertyAddressTooLong => "Property address too long",
            RwaError::PropertyTypeTooLong => "Property type too long",
            RwaError::MetadataUriTooLong => "Metadata URI too long",
            RwaError::InsufficientBalance => "Insufficient token balance for this operation",
            RwaError::InvalidAmount => "Invalid amount: must be greater than zero",
            RwaError::NoTokenHolders => "No token holders: cannot distribute revenue",
            RwaError::MathOverflow => "Math overflow in calculation",
            RwaError::ClaimTooSmall => "Claim amount too small",
            RwaError::InsufficientVaultBalance => "Insufficient vault balance",
            RwaError::InvalidEpoch => "Invalid epoch for this property",
            RwaError::EpochNotFinalized => "Epoch not finalized: cannot claim yet",
            RwaError::CredentialExpired => "Credential expired: please renew your credential",
            RwaError::CredentialRevoked => "Credential revoked: verification required",
            RwaError::InvalidCredential => "Invalid credential: credential not valid",
            RwaError::CredentialSuspended => "Credential suspended: contact support",
            RwaError::DuplicateClaim => "Revenue for this epoch was already claimed by this holder",
        }
    }
}

} // verus!
