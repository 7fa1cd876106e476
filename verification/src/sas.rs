//! Attestation-service verification: an alternative credential format, a
//! fixed-layout record produced by an external attestation service.
//!
//! The record sits behind an 8-byte discriminator and carries the subject,
//! the issuer, a 32-byte claim hash, an expiration timestamp, a validity
//! flag and two bookkeeping timestamps. Verification is a pure function of
//! the account snapshot, the investor, the trusted service program and the
//! current time.

use vstd::prelude::*;

use crate::account::RawAccount;
use crate::errors::RwaError;
use crate::wire::{bytes32_eq, i64_from_le_bytes, read_bytes32, spec_i64_from_le_bytes};

verus! {

/// A typed attestation record, read from the raw account bytes.
#[derive(Debug)]
pub struct SasAttestation {
    /// The subject of the attestation, usually the investor's wallet.
    pub subject: [u8; 32],
    /// The issuer of the attestation.
    pub issuer: [u8; 32],
    /// Attestation payload: a claim hash.
    pub data: [u8; 32],
    /// Expiration timestamp.
    pub expiration: i64,
    /// Whether the attestation is marked valid by its issuer.
    pub is_valid: bool,
    /// Creation timestamp.
    pub created_at: i64,
    /// Last update timestamp.
    pub updated_at: i64,
}

/// Audit record emitted when attestation verification succeeds.
#[derive(Debug)]
pub struct SasVerificationSuccess {
    /// The investor whose attestation was verified.
    pub investor: [u8; 32],
    /// The property mint the check was made for.
    pub property: [u8; 32],
    /// Address of the attestation account.
    pub attestation: [u8; 32],
    /// When the check was made.
    pub timestamp: i64,
}

/// Audit record for a failed attestation verification.
#[derive(Debug)]
pub struct SasVerificationFailed {
    /// The investor whose attestation was checked.
    pub investor: [u8; 32],
    /// The property mint the check was made for.
    pub property: [u8; 32],
    /// Diagnostic text naming the reason.
    pub reason: String,
    /// When the check was made.
    pub timestamp: i64,
}

/// Whether a raw buffer decodes as a well-formed attestation record: the
/// exact record length, with a strict one-byte boolean.
pub open spec fn spec_attestation_parse_ok(data: Seq<u8>) -> bool {
    &&& data.len() == 129
    &&& (data[112] == 0 || data[112] == 1)
}

/// The expiration field of a well-formed attestation buffer.
pub open spec fn spec_attestation_expiration(data: Seq<u8>) -> int {
    spec_i64_from_le_bytes(data.subrange(104, 112))
}

impl SasAttestation {
    /// Parses an attestation from raw account bytes, discriminator included.
    /// Fails on any other length and on a validity byte that is not 0 or 1.
    pub fn parse(data: &[u8]) -> (r: Result<SasAttestation, RwaError>)
        ensures
            r is Ok <==> spec_attestation_parse_ok(data@),
            r is Ok ==> r->Ok_0.subject@ == data@.subrange(8, 40),
            r is Ok ==> r->Ok_0.issuer@ == data@.subrange(40, 72),
            r is Ok ==> r->Ok_0.data@ == data@.subrange(72, 104),
            r is Ok ==> r->Ok_0.expiration as int == spec_attestation_expiration(data@),
            r is Ok ==> r->Ok_0.is_valid == (data@[112] == 1),
            r is Ok ==> r->Ok_0.created_at as int == spec_i64_from_le_bytes(
                data@.subrange(113, 121)),
            r is Ok ==> r->Ok_0.updated_at as int == spec_i64_from_le_bytes(
                data@.subrange(121, 129)),
            r is Err ==> r->Err_0 == RwaError::KycVerificationRequired,
    {
        if data.len() != 129 {
            return Err(RwaError::KycVerificationRequired);
        }
        let valid_byte = data[112];
        if valid_byte != 0 && valid_byte != 1 {
            return Err(RwaError::KycVerificationRequired);
        }
        let subject = read_bytes32(data, 8);
        let issuer = read_bytes32(data, 40);
        let claim = read_bytes32(data, 72);
        let expiration = i64_from_le_bytes(vstd::slice::slice_subrange(data, 104, 112));
        let created_at = i64_from_le_bytes(vstd::slice::slice_subrange(data, 113, 121));
        let updated_at = i64_from_le_bytes(vstd::slice::slice_subrange(data, 121, 129));
        Ok(
            SasAttestation {
                subject,
                issuer,
                data: claim,
                expiration,
                is_valid: valid_byte == 1,
                created_at,
                updated_at,
            },
        )
    }
}

/// The verification decision on an attestation account for an investor at a
/// time, with a grace period added to the stored expiration.
///
/// Checks in order: the account must be owned by the attestation service;
/// its bytes must parse; the subject must be the investor; the current time
/// must lie before expiration plus grace; and the record must be marked
/// valid. The first failing check names the error.
pub open spec fn spec_attestation_decision(
    owner: Seq<u8>,
    data: Seq<u8>,
    investor: Seq<u8>,
    sas_program: Seq<u8>,
    now: int,
    grace: int,
) -> Result<(), RwaError> {
    if owner != sas_program {
        Err(RwaError::InvalidSasProgram)
    } else if !spec_attestation_parse_ok(data) {
        Err(RwaError::KycVerificationRequired)
    } else if data.subrange(8, 40) != investor {
        Err(RwaError::KycVerificationRequired)
    } else if now >= spec_attestation_expiration(data) + grace {
        Err(RwaError::SasAttestationExpired)
    } else if data[112] != 1 {
        Err(RwaError::SasAttestationNotVerified)
    } else {
        Ok(())
    }
}

/// Verifies an attestation for an investor, with no grace period.
pub fn verify_sas_attestation(
    attestation_account: &RawAccount,
    investor: &[u8; 32],
    property_mint: &[u8; 32],
    sas_program: &[u8; 32],
    current_time: i64,
) -> (r: Result<SasVerificationSuccess, RwaError>)
    ensures
        r is Ok <==> spec_attestation_decision(
            attestation_account.owner@,
            attestation_account.data@,
            investor@,
            sas_program@,
            current_time as int,
            0,
        ) is Ok,
        r is Err ==> Err::<(), RwaError>(r->Err_0) == spec_attestation_decision(
            attestation_account.owner@,
            attestation_account.data@,
            investor@,
            sas_program@,
            current_time as int,
            0,
        ),
        r is Ok ==> r->Ok_0.investor@ == investor@ && r->Ok_0.property@ == property_mint@
            && r->Ok_0.attestation@ == attestation_account.key@ && r->Ok_0.timestamp
            == current_time,
{
    verify_sas_attestation_with_grace_period(
        attestation_account,
        investor,
        property_mint,
        sas_program,
        current_time,
        0,
    )
}

/// Verifies an attestation for an investor, accepting records whose
/// expiration lies within the given grace period. Useful for renewals.
pub fn verify_sas_attestation_with_grace_period(
    attestation_account: &RawAccount,
    investor: &[u8; 32],
    property_mint: &[u8; 32],
    sas_program: &[u8; 32],
    current_time: i64,
    grace_period_seconds: i64,
) -> (r: Result<SasVerificationSuccess, RwaError>)
    ensures
        r is Ok <==> spec_attestation_decision(
            attestation_account.owner@,
            attestation_account.data@,
            investor@,
            sas_program@,
            current_time as int,
            grace_period_seconds as int,
        ) is Ok,
        r is Err ==> Err::<(), RwaError>(r->Err_0) == spec_attestation_decision(
            attestation_account.owner@,
            attestation_account.data@,
            investor@,
            sas_program@,
            current_time as int,
            grace_period_seconds as int,
        ),
        r is Ok ==> r->Ok_0.investor@ == investor@ && r->Ok_0.property@ == property_mint@
            && r->Ok_0.attestation@ == attestation_account.key@ && r->Ok_0.timestamp
            == current_time,
{
    if !bytes32_eq(&attestation_account.owner, sas_program) {
        return Err(RwaError::InvalidSasProgram);
    }
    let attestation = match SasAttestation::parse(attestation_account.data.as_slice()) {
        Ok(a) => a,
        Err(e) => {
            return Err(e);
        },
    };
    if !bytes32_eq(&attestation.subject, investor) {
        return Err(RwaError::KycVerificationRequired);
    }
    let expiration_with_grace: i128 = attestation.expiration as i128
        + grace_period_seconds as i128;
    if current_time as i128 >= expiration_with_grace {
        return Err(RwaError::SasAttestationExpired);
    }
    if !attestation.is_valid {
        return Err(RwaError::SasAttestationNotVerified);
    }
    Ok(
        SasVerificationSuccess {
            investor: *investor,
            property: *property_mint,
            attestation: attestation_account.key,
            timestamp: current_time,
        },
    )
}

/// Whether the account is owned by the attestation service. No validity or
/// expiration check.
pub fn is_sas_attestation(account: &RawAccount, sas_program: &[u8; 32]) -> (r: bool)
    ensures
        r == (account.owner@ == sas_program@),
{
    bytes32_eq(&account.owner, sas_program)
}

/// Returns the attestation's expiration timestamp, if the account is owned
/// by the attestation service and its bytes parse.
pub fn get_attestation_expiration(
    attestation_account: &RawAccount,
    sas_program: &[u8; 32],
) -> (r: Result<i64, RwaError>)
    ensures
        r is Ok <==> (attestation_account.owner@ == sas_program@ && spec_attestation_parse_ok(
            attestation_account.data@,
        )),
        r is Ok ==> r->Ok_0 as int == spec_attestation_expiration(attestation_account.data@),
        r is Err ==> (if attestation_account.owner@ != sas_program@ {
            r->Err_0 == RwaError::InvalidSasProgram
        } else {
            r->Err_0 == RwaError::KycVerificationRequired
        }),
{
    if !bytes32_eq(&attestation_account.owner, sas_program) {
        return Err(RwaError::InvalidSasProgram);
    }
    let attestation = match SasAttestation::parse(attestation_account.data.as_slice()) {
        Ok(a) => a,
        Err(e) => {
            return Err(e);
        },
    };
    Ok(attestation.expiration)
}

} // verus!
