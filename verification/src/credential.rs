//! The attestation reader for credential records.
//!
//! A credential is stored by an external issuance service as a fixed-layout
//! byte record: an 8-byte discriminator, the subject address, the issuer
//! address, a type byte, a status byte, and two little-endian signed 64-bit
//! timestamps. `HubCredential::parse` turns such a blob into a typed record
//! and rejects anything structurally malformed.

use vstd::prelude::*;

use crate::errors::RwaError;
use crate::wire::{i64_from_le_bytes, read_bytes32, spec_i64_from_le_bytes};

verus! {

/// Credential type, one byte on the wire.
#[derive(Clone, Copy, Debug, PartialEq, Eq, Structural)]
pub enum HubCredentialType {
    KycBasic,
    KycFull,
    AccreditedInvestor,
    QualifiedPurchaser,
    BrazilianCpf,
    BrazilianCnpj,
}

/// Credential status, one byte on the wire.
#[derive(Clone, Copy, Debug, PartialEq, Eq, Structural)]
pub enum HubCredentialStatus {
    Active,
    Expired,
    Revoked,
    Suspended,
}

/// The credential type a wire byte denotes, if any.
pub open spec fn spec_credential_type_from_u8(value: u8) -> Option<HubCredentialType> {
    if value == 0 {
        Some(HubCredentialType::KycBasic)
    } else if value == 1 {
        Some(HubCredentialType::KycFull)
    } else if value == 2 {
        Some(HubCredentialType::AccreditedInvestor)
    } else if value == 3 {
        Some(HubCredentialType::QualifiedPurchaser)
    } else if value == 4 {
        Some(HubCredentialType::BrazilianCpf)
    } else if value == 5 {
        Some(HubCredentialType::BrazilianCnpj)
    } else {
        None
    }
}

/// The credential status a wire byte denotes, if any.
pub open spec fn spec_credential_status_from_u8(value: u8) -> Option<HubCredentialStatus> {
    if value == 0 {
        Some(HubCredentialStatus::Active)
    } else if value == 1 {
        Some(HubCredentialStatus::Expired)
    } else if value == 2 {
        Some(HubCredentialStatus::Revoked)
    } else if value == 3 {
        Some(HubCredentialStatus::Suspended)
    } else {
        None
    }
}

impl HubCredentialType {
    /// Decodes a wire byte into a credential type.
    pub fn from_u8(value: u8) -> (r: Option<HubCredentialType>)
        ensures
            r == spec_credential_type_from_u8(value),
    {
        match value {
            0 => Some(HubCredentialType::KycBasic),
            1 => Some(HubCredentialType::KycFull),
            2 => Some(HubCredentialType::AccreditedInvestor),
            3 => Some(HubCredentialType::QualifiedPurchaser),
            4 => Some(HubCredentialType::BrazilianCpf),
            5 => Some(HubCredentialType::BrazilianCnpj),
            _ => None,
        }
    }

    /// The wire byte this credential type is encoded as.
    pub fn as_byte(&self) -> (r: u8)
        ensures
            spec_credential_type_from_u8(r) == Some(*self),
    {
        match self {
            HubCredentialType::KycBasic => 0,
            HubCredentialType::KycFull => 1,
            HubCredentialType::AccreditedInvestor => 2,
            HubCredentialType::QualifiedPurchaser => 3,
            HubCredentialType::BrazilianCpf => 4,
            HubCredentialType::BrazilianCnpj => 5,
        }
    }
}

impl HubCredentialStatus {
    /// Decodes a wire byte into a credential status.
    pub fn from_u8(value: u8) -> (r: Option<HubCredentialStatus>)
        ensures
            r == spec_credential_status_from_u8(value),
    {
        match value {
            0 => Some(HubCredentialStatus::Active),
            1 => Some(HubCredentialStatus::Expired),
            2 => Some(HubCredentialStatus::Revoked),
            3 => Some(HubCredentialStatus::Suspended),
            _ => None,
        }
    }
}

/// A typed credential record, read from the raw account bytes.
#[derive(Debug)]
pub struct HubCredential {
    /// The subject the credential attests for.
    pub user: [u8; 32],
    /// The service that issued the credential.
    pub issuer: [u8; 32],
    /// What kind of verification the credential asserts.
    pub credential_type: HubCredentialType,
    /// Issuer-side lifecycle status.
    pub status: HubCredentialStatus,
    /// When the credential was issued.
    pub issued_at: i64,
    /// When the credential stops being usable.
    pub expires_at: i64,
}

/// Whether a raw buffer decodes as a structurally well-formed credential.
pub open spec fn spec_credential_parse_ok(data: Seq<u8>) -> bool {
    &&& data.len() >= 90
    &&& spec_credential_type_from_u8(data[72]) is Some
    &&& spec_credential_status_from_u8(data[73]) is Some
}

impl HubCredential {
    /// Minimum size of a credential account: an 8-byte discriminator,
    /// two 32-byte addresses, two enumerated bytes, two 8-byte timestamps.
    pub const MIN_SIZE: usize = 90;

    /// Parses a credential from raw account bytes. Fails on a short buffer
    /// or an enumerated byte with no known meaning.
    pub fn parse(data: &[u8]) -> (r: Result<HubCredential, RwaError>)
        ensures
            r is Ok <==> spec_credential_parse_ok(data@),
            r is Ok ==> r->Ok_0.user@ == data@.subrange(8, 40),
            r is Ok ==> r->Ok_0.issuer@ == data@.subrange(40, 72),
            r is Ok ==> Some(r->Ok_0.credential_type) == spec_credential_type_from_u8(data@[72]),
            r is Ok ==> Some(r->Ok_0.status) == spec_credential_status_from_u8(data@[73]),
            r is Ok ==> r->Ok_0.issued_at as int == spec_i64_from_le_bytes(
                data@.subrange(74, 82)),
            r is Ok ==> r->Ok_0.expires_at as int == spec_i64_from_le_bytes(
                data@.subrange(82, 90)),
            r is Err ==> r->Err_0 == RwaError::KycVerificationRequired,
    {
        if data.len() < 90 {
            return Err(RwaError::KycVerificationRequired);
        }
        let user = read_bytes32(data, 8);
        let issuer = read_bytes32(data, 40);
        let type_byte = data[72];
        let credential_type = match HubCredentialType::from_u8(type_byte) {
            Some(t) => t,
            None => {
                return Err(RwaError::KycVerificationRequired);
            },
        };
        let status_byte = data[73];
        let status = match HubCredentialStatus::from_u8(status_byte) {
            Some(s) => s,
            None => {
                return Err(RwaError::KycVerificationRequired);
            },
        };
        let issued_at = i64_from_le_bytes(vstd::slice::slice_subrange(data, 74, 82));
        let expires_at = i64_from_le_bytes(vstd::slice::slice_subrange(data, 82, 90));
        Ok(HubCredential { user, issuer, credential_type, status, issued_at, expires_at })
    }
}

} // verus!
