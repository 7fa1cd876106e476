//! The transfer interceptor: invoked on every balance-changing transfer,
//! including ones that never touch the issuing module.
//!
//! The destination wallet is read from the destination token account's raw
//! bytes at its fixed offset, then the compliance gate decides. A denial
//! aborts the whole transfer; `execute_checked_transfer` shows that an
//! aborted transfer moves nothing.

use vstd::prelude::*;

use crate::account::RawAccount;
use crate::compliance::{spec_gate_decision, verify_hub_credential};
use crate::errors::RwaError;
use crate::events::TransferKycVerified;
use crate::wire::read_bytes32;

verus! {

/// The interceptor's decision for a transfer: the destination token account
/// must be large enough to hold an owner field at bytes 32..64, and the
/// owner read from there must pass the compliance gate.
pub open spec fn spec_transfer_decision(
    destination_data: Seq<u8>,
    cred_owner: Seq<u8>,
    cred_data: Seq<u8>,
    issuer_program: Seq<u8>,
    now: int,
) -> Result<(), RwaError> {
    if destination_data.len() < 64 {
        Err(RwaError::KycVerificationRequired)
    } else {
        spec_gate_decision(
            cred_owner,
            cred_data,
            destination_data.subrange(32, 64),
            issuer_program,
            now,
        )
    }
}

/// Checks a transfer's destination against the compliance gate.
///
/// The ledger calls this immediately before it finalizes a transfer of
/// `amount` tokens; an `Err` tells it to abort. On success the audit record
/// names the resolved destination owner.
pub fn transfer_hook_execute(
    mint: &[u8; 32],
    source_account: &[u8; 32],
    destination_account: &RawAccount,
    hub_credential: &RawAccount,
    issuer_program: &[u8; 32],
    amount: u64,
    now: i64,
) -> (r: Result<TransferKycVerified, RwaError>)
    ensures
        r is Ok <==> spec_transfer_decision(
            destination_account.data@,
            hub_credential.owner@,
            hub_credential.data@,
            issuer_program@,
            now as int,
        ) is Ok,
        r is Err ==> Err::<(), RwaError>(r->Err_0) == spec_transfer_decision(
            destination_account.data@,
            hub_credential.owner@,
            hub_credential.data@,
            issuer_program@,
            now as int,
        ),
        r is Ok ==> r->Ok_0.mint@ == mint@ && r->Ok_0.source@ == source_account@
            && r->Ok_0.destination@ == destination_account.key@
            && r->Ok_0.destination_owner@ == destination_account.data@.subrange(32, 64)
            && r->Ok_0.amount == amount && r->Ok_0.timestamp == now,
{
    if destination_account.data.len() < 64 {
        return Err(RwaError::KycVerificationRequired);
    }
    let destination_owner = read_bytes32(destination_account.data.as_slice(), 32);
    match verify_hub_credential(hub_credential, &destination_owner, mint, issuer_program, now) {
        Ok(_) => {},
        Err(e) => {
            return Err(e);
        },
    }
    Ok(
        TransferKycVerified {
            mint: *mint,
            source: *source_account,
            destination: destination_account.key,
            destination_owner,
            amount,
            timestamp: now,
        },
    )
}

/// Settles a transfer of `amount` from a source balance to a destination
/// balance, but only if the interceptor allows it: a denied transfer is
/// aborted entirely and both balances stay exactly as they were.
pub fn execute_checked_transfer(
    source_balance: &mut u64,
    destination_balance: &mut u64,
    mint: &[u8; 32],
    source_account: &[u8; 32],
    destination_account: &RawAccount,
    hub_credential: &RawAccount,
    issuer_program: &[u8; 32],
    amount: u64,
    now: i64,
) -> (r: Result<TransferKycVerified, RwaError>)
    requires
        *old(source_balance) >= amount,
        *old(destination_balance) + amount <= u64::MAX,
    ensures
        r is Ok <==> spec_transfer_decision(
            destination_account.data@,
            hub_credential.owner@,
            hub_credential.data@,
            issuer_program@,
            now as int,
        ) is Ok,
        r is Err ==> *final(source_balance) == *old(source_balance) && *final(destination_balance)
            == *old(destination_balance) && Err::<(), RwaError>(r->Err_0)
            == spec_transfer_decision(
            destination_account.data@,
            hub_credential.owner@,
            hub_credential.data@,
            issuer_program@,
            now as int,
        ),
        r is Ok ==> *final(source_balance) == *old(source_balance) - amount
            && *final(destination_balance) == *old(destination_balance) + amount,
{
    let event = match transfer_hook_execute(
        mint,
        source_account,
        destination_account,
        hub_credential,
        issuer_program,
        amount,
        now,
    ) {
        Ok(ev) => ev,
        Err(e) => {
            return Err(e);
        },
    };
    *source_balance = *source_balance - amount;
    *destination_balance = *destination_balance + amount;
    Ok(event)
}

} // verus!
