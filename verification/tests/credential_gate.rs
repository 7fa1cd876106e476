//! Tests for the attestation readers and the compliance gate.

use hub_token::{
    derive_hub_credential_pda, get_attestation_expiration, hub_credential_exists,
    is_sas_attestation, verify_hub_credential, verify_sas_attestation,
    verify_sas_attestation_with_grace_period, HubCredential, HubCredentialStatus,
    HubCredentialType, RawAccount, RwaError, SasAttestation,
};

const ISSUER_PROGRAM: [u8; 32] = [9u8; 32];
const SAS_PROGRAM: [u8; 32] = [11u8; 32];
const PROPERTY_MINT: [u8; 32] = [3u8; 32];

/// A credential record: 8-byte discriminator, user, issuer, type byte,
/// status byte, issued_at, expires_at.
fn credential_bytes(
    user: [u8; 32],
    type_byte: u8,
    status_byte: u8,
    issued_at: i64,
    expires_at: i64,
) -> Vec<u8> {
    let mut data = vec![0u8; 8];
    data.extend_from_slice(&user);
    data.extend_from_slice(&[7u8; 32]);
    data.push(type_byte);
    data.push(status_byte);
    data.extend_from_slice(&issued_at.to_le_bytes());
    data.extend_from_slice(&expires_at.to_le_bytes());
    data
}

fn credential_account(owner: [u8; 32], data: Vec<u8>) -> RawAccount {
    RawAccount { key: [42u8; 32], owner, data }
}

/// An attestation record: 8-byte discriminator, subject, issuer, claim hash,
/// expiration, validity byte, created_at, updated_at.
fn attestation_bytes(subject: [u8; 32], expiration: i64, valid_byte: u8) -> Vec<u8> {
    let mut data = vec![0u8; 8];
    data.extend_from_slice(&subject);
    data.extend_from_slice(&[7u8; 32]);
    data.extend_from_slice(&[1u8; 32]);
    data.extend_from_slice(&expiration.to_le_bytes());
    data.push(valid_byte);
    data.extend_from_slice(&100i64.to_le_bytes());
    data.extend_from_slice(&200i64.to_le_bytes());
    data
}

#[test]
fn test_credential_type_from_u8() {
    assert_eq!(
        HubCredentialType::from_u8(0),
        Some(HubCredentialType::KycBasic)
    );
    assert_eq!(
        HubCredentialType::from_u8(1),
        Some(HubCredentialType::KycFull)
    );
    assert_eq!(
        HubCredentialType::from_u8(2),
        Some(HubCredentialType::AccreditedInvestor)
    );
    assert_eq!(HubCredentialType::from_u8(10), None);
}

#[test]
fn test_credential_status_from_u8() {
    assert_eq!(
        HubCredentialStatus::from_u8(0),
        Some(HubCredentialStatus::Active)
    );
    assert_eq!(
        HubCredentialStatus::from_u8(2),
        Some(HubCredentialStatus::Revoked)
    );
    assert_eq!(HubCredentialStatus::from_u8(10), None);
}

#[test]
fn test_derive_hub_credential_pda() {
    let wallet = anchor_lang::prelude::Pubkey::new_unique().to_bytes();
    let (pda, _bump) = derive_hub_credential_pda(&wallet, &ISSUER_PROGRAM).unwrap();

    // Verify PDA is deterministic
    let (pda2, _) = derive_hub_credential_pda(&wallet, &ISSUER_PROGRAM).unwrap();
    assert_eq!(pda, pda2);
}

#[test]
fn derive_pda_depends_on_inputs() {
    let wallet = [5u8; 32];
    let other_wallet = [6u8; 32];
    let (pda, _) = derive_hub_credential_pda(&wallet, &ISSUER_PROGRAM).unwrap();
    let (pda_other, _) = derive_hub_credential_pda(&other_wallet, &ISSUER_PROGRAM).unwrap();
    assert_ne!(pda, wallet);
    assert_ne!(pda, pda_other);
}

#[test]
fn parse_reads_every_field() {
    let user = [4u8; 32];
    let data = credential_bytes(user, 2, 3, -1, 9_000_000_000);
    let cred = HubCredential::parse(&data).unwrap();
    assert_eq!(cred.user, user);
    assert_eq!(cred.issuer, [7u8; 32]);
    assert_eq!(cred.credential_type, HubCredentialType::AccreditedInvestor);
    assert_eq!(cred.status, HubCredentialStatus::Suspended);
    assert_eq!(cred.issued_at, -1);
    assert_eq!(cred.expires_at, 9_000_000_000);
}

#[test]
fn parse_rejects_short_buffer() {
    let data = vec![0u8; HubCredential::MIN_SIZE - 1];
    assert_eq!(
        HubCredential::parse(&data).unwrap_err(),
        RwaError::KycVerificationRequired
    );
}

#[test]
fn parse_rejects_unknown_type_and_status() {
    let user = [4u8; 32];
    let bad_type = credential_bytes(user, 6, 0, 0, 10);
    assert_eq!(
        HubCredential::parse(&bad_type).unwrap_err(),
        RwaError::KycVerificationRequired
    );
    let bad_status = credential_bytes(user, 0, 4, 0, 10);
    assert_eq!(
        HubCredential::parse(&bad_status).unwrap_err(),
        RwaError::KycVerificationRequired
    );
}

#[test]
fn gate_allows_active_unexpired_credential() {
    let wallet = [4u8; 32];
    let account = credential_account(ISSUER_PROGRAM, credential_bytes(wallet, 1, 0, 100, 2_000));
    let audit =
        verify_hub_credential(&account, &wallet, &PROPERTY_MINT, &ISSUER_PROGRAM, 1_000).unwrap();
    assert_eq!(audit.wallet, wallet);
    assert_eq!(audit.credential, account.key);
    assert_eq!(audit.credential_type, 1);
    assert_eq!(audit.timestamp, 1_000);
}

#[test]
fn gate_rejects_untrusted_owner() {
    let wallet = [4u8; 32];
    let account = credential_account([8u8; 32], credential_bytes(wallet, 0, 0, 100, 2_000));
    assert_eq!(
        verify_hub_credential(&account, &wallet, &PROPERTY_MINT, &ISSUER_PROGRAM, 1_000)
            .unwrap_err(),
        RwaError::KycVerificationRequired
    );
}

#[test]
fn gate_rejects_subject_mismatch() {
    let wallet = [4u8; 32];
    let account = credential_account(ISSUER_PROGRAM, credential_bytes([5u8; 32], 0, 0, 100, 2_000));
    assert_eq!(
        verify_hub_credential(&account, &wallet, &PROPERTY_MINT, &ISSUER_PROGRAM, 1_000)
            .unwrap_err(),
        RwaError::KycVerificationRequired
    );
}

#[test]
fn gate_classifies_stored_status() {
    let wallet = [4u8; 32];
    let revoked = credential_account(ISSUER_PROGRAM, credential_bytes(wallet, 0, 2, 100, 2_000));
    assert_eq!(
        verify_hub_credential(&revoked, &wallet, &PROPERTY_MINT, &ISSUER_PROGRAM, 1_000)
            .unwrap_err(),
        RwaError::CredentialRevoked
    );
    let suspended = credential_account(ISSUER_PROGRAM, credential_bytes(wallet, 0, 3, 100, 2_000));
    assert_eq!(
        verify_hub_credential(&suspended, &wallet, &PROPERTY_MINT, &ISSUER_PROGRAM, 1_000)
            .unwrap_err(),
        RwaError::CredentialSuspended
    );
    let expired = credential_account(ISSUER_PROGRAM, credential_bytes(wallet, 0, 1, 100, 2_000));
    assert_eq!(
        verify_hub_credential(&expired, &wallet, &PROPERTY_MINT, &ISSUER_PROGRAM, 1_000)
            .unwrap_err(),
        RwaError::CredentialExpired
    );
}

#[test]
fn gate_rejects_active_but_time_expired_credential() {
    let wallet = [4u8; 32];
    // Status byte says Active, but the expiry lies in the past.
    let account = credential_account(ISSUER_PROGRAM, credential_bytes(wallet, 0, 0, 100, 900));
    assert_eq!(
        verify_hub_credential(&account, &wallet, &PROPERTY_MINT, &ISSUER_PROGRAM, 1_000)
            .unwrap_err(),
        RwaError::CredentialExpired
    );
    // At exactly the expiry instant the credential is no longer usable.
    let at_expiry = credential_account(ISSUER_PROGRAM, credential_bytes(wallet, 0, 0, 100, 1_000));
    assert_eq!(
        verify_hub_credential(&at_expiry, &wallet, &PROPERTY_MINT, &ISSUER_PROGRAM, 1_000)
            .unwrap_err(),
        RwaError::CredentialExpired
    );
}

#[test]
fn credential_exists_checks_owner_and_size() {
    let wallet = [4u8; 32];
    let good = credential_account(ISSUER_PROGRAM, credential_bytes(wallet, 0, 0, 100, 2_000));
    assert!(hub_credential_exists(&good, &ISSUER_PROGRAM));
    let wrong_owner = credential_account([8u8; 32], credential_bytes(wallet, 0, 0, 100, 2_000));
    assert!(!hub_credential_exists(&wrong_owner, &ISSUER_PROGRAM));
    let short = credential_account(ISSUER_PROGRAM, vec![0u8; 89]);
    assert!(!hub_credential_exists(&short, &ISSUER_PROGRAM));
}

#[test]
fn test_attestation_structure_size() {
    // Ensure SasAttestation fits within expected size
    let size = std::mem::size_of::<SasAttestation>();
    assert!(size < 200, "SasAttestation too large: {} bytes", size);
}

#[test]
fn sas_parse_reads_every_field() {
    let subject = [4u8; 32];
    let data = attestation_bytes(subject, -5, 1);
    let att = SasAttestation::parse(&data).unwrap();
    assert_eq!(att.subject, subject);
    assert_eq!(att.issuer, [7u8; 32]);
    assert_eq!(att.data, [1u8; 32]);
    assert_eq!(att.expiration, -5);
    assert!(att.is_valid);
    assert_eq!(att.created_at, 100);
    assert_eq!(att.updated_at, 200);
}

#[test]
fn sas_parse_rejects_wrong_length_and_bad_bool() {
    let subject = [4u8; 32];
    let mut long = attestation_bytes(subject, 10, 1);
    long.push(0);
    assert!(SasAttestation::parse(&long).is_err());
    let short = vec![0u8; 128];
    assert!(SasAttestation::parse(&short).is_err());
    let bad_bool = attestation_bytes(subject, 10, 2);
    assert_eq!(
        SasAttestation::parse(&bad_bool).unwrap_err(),
        RwaError::KycVerificationRequired
    );
}

#[test]
fn sas_verification_checks_in_order() {
    let investor = [4u8; 32];
    let good = RawAccount {
        key: [13u8; 32],
        owner: SAS_PROGRAM,
        data: attestation_bytes(investor, 2_000, 1),
    };
    let audit =
        verify_sas_attestation(&good, &investor, &PROPERTY_MINT, &SAS_PROGRAM, 1_000).unwrap();
    assert_eq!(audit.investor, investor);
    assert_eq!(audit.property, PROPERTY_MINT);
    assert_eq!(audit.attestation, [13u8; 32]);
    assert_eq!(audit.timestamp, 1_000);

    let wrong_owner = RawAccount {
        key: [13u8; 32],
        owner: [8u8; 32],
        data: attestation_bytes(investor, 2_000, 1),
    };
    assert_eq!(
        verify_sas_attestation(&wrong_owner, &investor, &PROPERTY_MINT, &SAS_PROGRAM, 1_000)
            .unwrap_err(),
        RwaError::InvalidSasProgram
    );

    let wrong_subject = RawAccount {
        key: [13u8; 32],
        owner: SAS_PROGRAM,
        data: attestation_bytes([5u8; 32], 2_000, 1),
    };
    assert_eq!(
        verify_sas_attestation(&wrong_subject, &investor, &PROPERTY_MINT, &SAS_PROGRAM, 1_000)
            .unwrap_err(),
        RwaError::KycVerificationRequired
    );

    let expired = RawAccount {
        key: [13u8; 32],
        owner: SAS_PROGRAM,
        data: attestation_bytes(investor, 1_000, 1),
    };
    assert_eq!(
        verify_sas_attestation(&expired, &investor, &PROPERTY_MINT, &SAS_PROGRAM, 1_000)
            .unwrap_err(),
        RwaError::SasAttestationExpired
    );

    let not_valid = RawAccount {
        key: [13u8; 32],
        owner: SAS_PROGRAM,
        data: attestation_bytes(investor, 2_000, 0),
    };
    assert_eq!(
        verify_sas_attestation(&not_valid, &investor, &PROPERTY_MINT, &SAS_PROGRAM, 1_000)
            .unwrap_err(),
        RwaError::SasAttestationNotVerified
    );
}

#[test]
fn sas_grace_period_extends_expiration() {
    let investor = [4u8; 32];
    let account = RawAccount {
        key: [13u8; 32],
        owner: SAS_PROGRAM,
        data: attestation_bytes(investor, 990, 1),
    };
    assert_eq!(
        verify_sas_attestation(&account, &investor, &PROPERTY_MINT, &SAS_PROGRAM, 1_000)
            .unwrap_err(),
        RwaError::SasAttestationExpired
    );
    let audit = verify_sas_attestation_with_grace_period(
        &account,
        &investor,
        &PROPERTY_MINT,
        &SAS_PROGRAM,
        1_000,
        20,
    )
    .unwrap();
    assert_eq!(audit.investor, investor);
}

#[test]
fn attestation_expiration_and_ownership_queries() {
    let investor = [4u8; 32];
    let account = RawAccount {
        key: [13u8; 32],
        owner: SAS_PROGRAM,
        data: attestation_bytes(investor, 777, 1),
    };
    assert!(is_sas_attestation(&account, &SAS_PROGRAM));
    assert_eq!(
        get_attestation_expiration(&account, &SAS_PROGRAM).unwrap(),
        777
    );
    let foreign = RawAccount {
        key: [13u8; 32],
        owner: [8u8; 32],
        data: attestation_bytes(investor, 777, 1),
    };
    assert!(!is_sas_attestation(&foreign, &SAS_PROGRAM));
    assert_eq!(
        get_attestation_expiration(&foreign, &SAS_PROGRAM).unwrap_err(),
        RwaError::InvalidSasProgram
    );
}

#[test]
fn error_messages_name_the_failure() {
    assert!(RwaError::ExceedsMaxSupply.message().contains("maximum supply"));
    assert!(RwaError::NoTokenHolders.message().contains("No token holders"));
}
