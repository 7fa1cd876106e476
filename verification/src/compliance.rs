//! The compliance gate: decides, fresh on every call, whether a wallet may
//! receive or hold the asset token.
//!
//! The decision is a pure function of the credential account's owner and
//! bytes, the wallet, the trusted issuer program and the current time, so a
//! caller can never observe a stale decision. Each deny reason is pinned to
//! the exact condition that produces it.

use vstd::prelude::*;

use crate::account::RawAccount;
use crate::credential::{
    spec_credential_parse_ok, spec_credential_status_from_u8, spec_credential_type_from_u8,
    HubCredential, HubCredentialStatus,
};
use crate::errors::RwaError;
use crate::wire::{bytes32_eq, spec_i64_from_le_bytes};

verus! {

/// Audit record emitted when compliance verification allows a wallet.
#[derive(Debug)]
pub struct HubCredentialVerified {
    /// The wallet that passed verification.
    pub wallet: [u8; 32],
    /// Address of the credential account that was checked.
    pub credential: [u8; 32],
    /// Wire byte of the credential's type.
    pub credential_type: u8,
    /// When the check was made.
    pub timestamp: i64,
}

/// The compliance decision on a credential account for a wallet at a time.
///
/// Checks in order: the account must be owned by the trusted issuer program;
/// its bytes must parse; the credential's subject must be the wallet; the
/// stored status must be active; and the expiry timestamp must lie in the
/// future. The first failing check names the error.
pub open spec fn spec_gate_decision(
    owner: Seq<u8>,
    data: Seq<u8>,
    wallet: Seq<u8>,
    issuer_program: Seq<u8>,
    now: int,
) -> Result<(), RwaError> {
    if owner != issuer_program {
        Err(RwaError::KycVerificationRequired)
    } else if !spec_credential_parse_ok(data) {
        Err(RwaError::KycVerificationRequired)
    } else if data.subrange(8, 40) != wallet {
        Err(RwaError::KycVerificationRequired)
    } else if spec_credential_status_from_u8(data[73]) != Some(HubCredentialStatus::Active) {
        Err(
            if spec_credential_status_from_u8(data[73]) == Some(HubCredentialStatus::Revoked) {
                RwaError::CredentialRevoked
            } else if spec_credential_status_from_u8(data[73]) == Some(
                HubCredentialStatus::Suspended,
            ) {
                RwaError::CredentialSuspended
            } else {
                RwaError::CredentialExpired
            },
        )
    } else if now >= spec_i64_from_le_bytes(data.subrange(82, 90)) {
        Err(RwaError::CredentialExpired)
    } else {
        Ok(())
    }
}

/// Verifies that a wallet holds a usable credential.
///
/// Returns the audit record on success; on denial, the error named by
/// `spec_gate_decision`. The property mint is carried only for the caller's
/// audit trail.
pub fn verify_hub_credential(
    credential_account: &RawAccount,
    wallet: &[u8; 32],
    _property_mint: &[u8; 32],
    issuer_program: &[u8; 32],
    current_time: i64,
) -> (r: Result<HubCredentialVerified, RwaError>)
    ensures
        r is Ok <==> spec_gate_decision(
            credential_account.owner@,
            credential_account.data@,
            wallet@,
            issuer_program@,
            current_time as int,
        ) is Ok,
        r is Err ==> Err::<(), RwaError>(r->Err_0) == spec_gate_decision(
            credential_account.owner@,
            credential_account.data@,
            wallet@,
            issuer_program@,
            current_time as int,
        ),
        r is Ok ==> r->Ok_0.wallet@ == wallet@,
        r is Ok ==> r->Ok_0.credential@ == credential_account.key@,
        r is Ok ==> spec_credential_type_from_u8(r->Ok_0.credential_type)
            == spec_credential_type_from_u8(credential_account.data@[72]),
        r is Ok ==> r->Ok_0.timestamp == current_time,
{
    if !bytes32_eq(&credential_account.owner, issuer_program) {
        return Err(RwaError::KycVerificationRequired);
    }
    let credential = match HubCredential::parse(credential_account.data.as_slice()) {
        Ok(c) => c,
        Err(e) => {
            return Err(e);
        },
    };
    if !bytes32_eq(&credential.user, wallet) {
        return Err(RwaError::KycVerificationRequired);
    }
    match credential.status {
        HubCredentialStatus::Active => {},
        HubCredentialStatus::Revoked => {
            return Err(RwaError::CredentialRevoked);
        },
        HubCredentialStatus::Suspended => {
            return Err(RwaError::CredentialSuspended);
        },
        HubCredentialStatus::Expired => {
            return Err(RwaError::CredentialExpired);
        },
    }
    if current_time >= credential.expires_at {
        return Err(RwaError::CredentialExpired);
    }
    Ok(
        HubCredentialVerified {
            wallet: *wallet,
            credential: credential_account.key,
            credential_type: credential.credential_type.as_byte(),
            timestamp: current_time,
        },
    )
}

/// Each denial is classified: an account not owned by the trusted
/// issuer, a malformed record, and a subject mismatch all read as a missing
/// usable credential; a stored revoked, suspended or expired status names
/// itself; and a credential that is status-active but past its expiry is
/// denied as expired — the time check is required even when the status
/// check passes.
pub proof fn lemma_gate_deny_classification(
    owner: Seq<u8>,
    data: Seq<u8>,
    wallet: Seq<u8>,
    issuer_program: Seq<u8>,
    now: int,
)
    ensures
        owner != issuer_program ==> spec_gate_decision(owner, data, wallet, issuer_program, now)
            == Err::<(), RwaError>(RwaError::KycVerificationRequired),
        !spec_credential_parse_ok(data) ==> spec_gate_decision(
            owner,
            data,
            wallet,
            issuer_program,
            now,
        ) == Err::<(), RwaError>(RwaError::KycVerificationRequired),
        (spec_credential_parse_ok(data) && data.subrange(8, 40) != wallet) ==> spec_gate_decision(
            owner,
            data,
            wallet,
            issuer_program,
            now,
        ) == Err::<(), RwaError>(RwaError::KycVerificationRequired),
        (owner == issuer_program && spec_credential_parse_ok(data) && data.subrange(8, 40)
            == wallet) ==> {
            &&& data[73] == 2 ==> spec_gate_decision(owner, data, wallet, issuer_program, now)
                == Err::<(), RwaError>(RwaError::CredentialRevoked)
            &&& data[73] == 3 ==> spec_gate_decision(owner, data, wallet, issuer_program, now)
                == Err::<(), RwaError>(RwaError::CredentialSuspended)
            &&& data[73] == 1 ==> spec_gate_decision(owner, data, wallet, issuer_program, now)
                == Err::<(), RwaError>(RwaError::CredentialExpired)
            &&& (data[73] == 0 && now >= crate::wire::spec_i64_from_le_bytes(
                data.subrange(82, 90),
            )) ==> spec_gate_decision(owner, data, wallet, issuer_program, now) == Err::<
                (),
                RwaError,
            >(RwaError::CredentialExpired)
        },
{
}

/// Whether a credential account exists for a wallet: large enough to hold a
/// record and owned by the trusted issuer program. No validity check.
pub fn hub_credential_exists(
    credential_account: &RawAccount,
    issuer_program: &[u8; 32],
) -> (r: bool)
    ensures
        r == (credential_account.data@.len() >= 90 && credential_account.owner@
            == issuer_program@),
{
    credential_account.data.len() >= HubCredential::MIN_SIZE && bytes32_eq(
        &credential_account.owner,
        issuer_program,
    )
}

/// The address and bump that the runtime derives for a wallet's credential,
/// a fixed function of the wallet and the issuer program.
pub uninterp spec fn credential_pda_of(wallet: Seq<u8>, program_id: Seq<u8>) -> Option<
    ([u8; 32], u8),
>;

/// Derives the credential account address for a wallet from the seeds
/// `["credential", wallet]` under the issuer program.
///
/// Relies on `Pubkey::try_find_program_address` (anchor_lang): the result
/// depends only on the seed bytes and the program id; `None` is returned in
/// the statistically improbable event that no bump seed works.
#[verifier::external_body]
pub fn derive_hub_credential_pda(wallet: &[u8; 32], program_id: &[u8; 32]) -> (r: Option<
    ([u8; 32], u8),
>)
    ensures
        r == credential_pda_of(wallet@, program_id@),
{
    let program = anchor_lang::prelude::Pubkey::new_from_array(*program_id);
    anchor_lang::prelude::Pubkey::try_find_program_address(
        &[b"credential", wallet.as_ref()],
        &program,
    ).map(|(pda, bump)| (pda.to_bytes(), bump))
}

} // verus!
