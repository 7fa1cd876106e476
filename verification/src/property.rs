//! The property record and its supply ledger.
//!
//! A `PropertyState` owns the supply invariant of one tokenized asset:
//! `circulating_supply <= total_supply` holds when the record is created and
//! is preserved by every operation. Issuance is gated by the compliance
//! check; redemption only shrinks circulation.

use vstd::prelude::*;
use vstd::string::StringSliceAdditionalSpecFns;

use crate::account::RawAccount;
use crate::compliance::{spec_gate_decision, verify_hub_credential};
use crate::errors::RwaError;
use crate::events::{
    PropertyInitialized, PropertyStatusChanged, PropertyUpdated, TokensBurned, TokensMinted,
};

verus! {

/// Maximum byte length of a property name.
pub const MAX_PROPERTY_NAME_LEN: usize = 50;

/// Maximum byte length of a property symbol.
pub const MAX_PROPERTY_SYMBOL_LEN: usize = 10;

/// Maximum byte length of a property address.
pub const MAX_PROPERTY_ADDRESS_LEN: usize = 200;

/// Maximum byte length of a property type description.
pub const MAX_PROPERTY_TYPE_LEN: usize = 100;

/// Maximum byte length of a metadata URI.
pub const MAX_METADATA_URI_LEN: usize = 500;

/// Smallest accepted rental yield, in basis points.
pub const MIN_RENTAL_YIELD_BPS: u16 = 0;

/// Largest accepted rental yield, in basis points.
pub const MAX_RENTAL_YIELD_BPS: u16 = 10000;

/// Byte length of a string, the measure all length limits use.
pub open spec fn spec_byte_len(s: Seq<char>) -> nat {
    vstd::utf8::encode_utf8(s).len()
}

/// Free-text details of one property.
#[derive(Clone, Debug)]
pub struct PropertyDetails {
    /// Physical address of the property.
    pub property_address: String,
    /// Kind of property, free text.
    pub property_type: String,
    /// Total property value in USD cents.
    pub total_value_usd: u64,
    /// Annual rental yield in basis points.
    pub rental_yield_bps: u16,
    /// URI pointing to off-chain metadata.
    pub metadata_uri: String,
}

/// The validation decision on property details. The first failing length
/// limit names the error; the yield range is checked last.
pub open spec fn spec_details_decision(d: PropertyDetails) -> Result<(), RwaError> {
    if spec_byte_len(d.property_address@) > 200 {
        Err(RwaError::PropertyAddressTooLong)
    } else if spec_byte_len(d.property_type@) > 100 {
        Err(RwaError::PropertyTypeTooLong)
    } else if spec_byte_len(d.metadata_uri@) > 500 {
        Err(RwaError::MetadataUriTooLong)
    } else if d.rental_yield_bps > 10000 {
        Err(RwaError::InvalidRentalYield)
    } else {
        Ok(())
    }
}

impl PropertyDetails {
    /// Checks the length limits and the yield range.
    pub fn validate(&self) -> (r: Result<(), RwaError>)
        ensures
            r == spec_details_decision(*self),
    {
        if self.property_address.as_str().as_bytes().len() > MAX_PROPERTY_ADDRESS_LEN {
            return Err(RwaError::PropertyAddressTooLong);
        }
        if self.property_type.as_str().as_bytes().len() > MAX_PROPERTY_TYPE_LEN {
            return Err(RwaError::PropertyTypeTooLong);
        }
        if self.metadata_uri.as_str().as_bytes().len() > MAX_METADATA_URI_LEN {
            return Err(RwaError::MetadataUriTooLong);
        }
        if self.rental_yield_bps > MAX_RENTAL_YIELD_BPS {
            return Err(RwaError::InvalidRentalYield);
        }
        Ok(())
    }
}

/// State of one tokenized property.
#[derive(Debug)]
pub struct PropertyState {
    /// Authority who can mint tokens and update property details.
    pub authority: [u8; 32],
    /// Asset-ledger mint address for this property.
    pub mint: [u8; 32],
    /// Human-readable property name.
    pub property_name: String,
    /// Token symbol.
    pub property_symbol: String,
    /// Maximum number of tokens that can ever circulate.
    pub total_supply: u64,
    /// Number of tokens currently in circulation.
    pub circulating_supply: u64,
    /// Detailed property information.
    pub details: PropertyDetails,
    /// Whether minting is currently enabled.
    pub is_active: bool,
    /// When the property was tokenized.
    pub created_at: i64,
    /// When the record last changed.
    pub updated_at: i64,
}

/// The creation decision for a property record.
pub open spec fn spec_create_decision(
    name: Seq<char>,
    symbol: Seq<char>,
    total_supply: u64,
    details: PropertyDetails,
) -> Result<(), RwaError> {
    if spec_byte_len(name) > 50 {
        Err(RwaError::PropertyNameTooLong)
    } else if spec_byte_len(symbol) > 10 {
        Err(RwaError::PropertySymbolTooLong)
    } else if total_supply == 0 {
        Err(RwaError::InvalidTotalSupply)
    } else {
        spec_details_decision(details)
    }
}

impl PropertyState {
    /// The supply invariant: circulation never exceeds the fixed cap.
    pub open spec fn wf(&self) -> bool {
        self.circulating_supply <= self.total_supply
    }

    /// Creates the record for a newly tokenized property: validates the
    /// inputs, then starts with zero circulation, active issuance, and both
    /// timestamps at `now`.
    pub fn new(
        authority: [u8; 32],
        mint: [u8; 32],
        property_name: String,
        property_symbol: String,
        total_supply: u64,
        details: PropertyDetails,
        now: i64,
    ) -> (r: Result<PropertyState, RwaError>)
        ensures
            r is Ok <==> spec_create_decision(
                property_name@,
                property_symbol@,
                total_supply,
                details,
            ) is Ok,
            r is Err ==> Err::<(), RwaError>(r->Err_0) == spec_create_decision(
                property_name@,
                property_symbol@,
                total_supply,
                details,
            ),
            r is Ok ==> r->Ok_0 == (PropertyState {
                authority,
                mint,
                property_name,
                property_symbol,
                total_supply,
                circulating_supply: 0,
                details,
                is_active: true,
                created_at: now,
                updated_at: now,
            }),
            r is Ok ==> r->Ok_0.wf(),
    {
        if property_name.as_str().as_bytes().len() > MAX_PROPERTY_NAME_LEN {
            return Err(RwaError::PropertyNameTooLong);
        }
        if property_symbol.as_str().as_bytes().len() > MAX_PROPERTY_SYMBOL_LEN {
            return Err(RwaError::PropertySymbolTooLong);
        }
        if total_supply == 0 {
            return Err(RwaError::InvalidTotalSupply);
        }
        match details.validate() {
            Ok(_) => {},
            Err(e) => {
                return Err(e);
            },
        }
        Ok(
            PropertyState {
                authority,
                mint,
                property_name,
                property_symbol,
                total_supply,
                circulating_supply: 0,
                details,
                is_active: true,
                created_at: now,
                updated_at: now,
            },
        )
    }

    /// Whether `amount` more tokens may be minted right now.
    pub fn can_mint(&self, amount: u64) -> (r: bool)
        requires
            self.wf(),
        ensures
            r == (self.is_active && self.circulating_supply + amount <= self.total_supply),
    {
        self.is_active && amount <= self.total_supply - self.circulating_supply
    }

    /// How many tokens may still be minted before the cap is reached.
    pub fn remaining_supply(&self) -> (r: u64)
        ensures
            r == if self.circulating_supply <= self.total_supply {
                self.total_supply - self.circulating_supply
            } else {
                0int
            },
    {
        if self.circulating_supply <= self.total_supply {
            self.total_supply - self.circulating_supply
        } else {
            0
        }
    }

    /// The value one token stands for, in USD cents, rounded down.
    pub fn value_per_token_cents(&self) -> (r: u64)
        ensures
            r == if self.total_supply == 0 {
                0int
            } else {
                self.details.total_value_usd as int / self.total_supply as int
            },
    {
        if self.total_supply == 0 {
            0
        } else {
            self.details.total_value_usd / self.total_supply
        }
    }

    /// The audit record for this property's creation.
    pub fn initialized_event(&self) -> (r: PropertyInitialized)
        ensures
            r.mint == self.mint,
            r.authority == self.authority,
            r.property_name == self.property_name,
            r.property_symbol == self.property_symbol,
            r.total_supply == self.total_supply,
            r.property_address == self.details.property_address,
            r.timestamp == self.created_at,
    {
        PropertyInitialized {
            mint: self.mint,
            authority: self.authority,
            property_name: self.property_name.clone(),
            property_symbol: self.property_symbol.clone(),
            total_supply: self.total_supply,
            property_address: self.details.property_address.clone(),
            timestamp: self.created_at,
        }
    }

    /// Mints `amount` tokens to `investor`: the caller must be the property
    /// authority, issuance must be active, the cap must hold, and the
    /// investor's credential must pass the compliance gate. On success,
    /// circulation grows by `amount`; on any failure the record is unchanged.
    pub fn mint_property_tokens(
        &mut self,
        caller: &[u8; 32],
        investor: &[u8; 32],
        investor_credential: &RawAccount,
        issuer_program: &[u8; 32],
        amount: u64,
        now: i64,
    ) -> (r: Result<TokensMinted, RwaError>)
        requires
            old(self).wf(),
        ensures
            final(self).wf(),
            r is Ok <==> spec_mint_decision(
                *old(self),
                caller@,
                investor_credential.owner@,
                investor_credential.data@,
                investor@,
                issuer_program@,
                amount,
                now as int,
            ) is Ok,
            r is Err ==> *final(self) == *old(self) && Err::<(), RwaError>(r->Err_0)
                == spec_mint_decision(
                *old(self),
                caller@,
                investor_credential.owner@,
                investor_credential.data@,
                investor@,
                issuer_program@,
                amount,
                now as int,
            ),
            r is Ok ==> final(self).circulating_supply == old(self).circulating_supply + amount
                && final(self).updated_at == now && spec_same_but_supply_and_updated(
                *old(self),
                *final(self),
            ),
            r is Ok ==> r->Ok_0 == (TokensMinted {
                mint: old(self).mint,
                investor: *investor,
                amount,
                circulating_supply: (old(self).circulating_supply + amount) as u64,
                timestamp: now,
            }),
    {
        if !crate::wire::bytes32_eq(caller, &self.authority) {
            return Err(RwaError::Unauthorized);
        }
        if !self.is_active {
            return Err(RwaError::PropertyNotActive);
        }
        if amount > self.total_supply - self.circulating_supply {
            return Err(RwaError::ExceedsMaxSupply);
        }
        match verify_hub_credential(investor_credential, investor, &self.mint, issuer_program, now)
        {
            Ok(_) => {},
            Err(e) => {
                return Err(e);
            },
        }
        self.circulating_supply = self.circulating_supply + amount;
        self.updated_at = now;
        Ok(
            TokensMinted {
                mint: self.mint,
                investor: *investor,
                amount,
                circulating_supply: self.circulating_supply,
                timestamp: now,
            },
        )
    }

    /// Burns `amount` of an investor's tokens, shrinking circulation.
    /// Fails only when `amount` exceeds the circulating supply; on failure
    /// the record is unchanged.
    pub fn burn_property_tokens(&mut self, investor: &[u8; 32], amount: u64, now: i64) -> (r:
        Result<TokensBurned, RwaError>)
        requires
            old(self).wf(),
        ensures
            final(self).wf(),
            r is Ok <==> amount <= old(self).circulating_supply,
            r is Err ==> *final(self) == *old(self) && r->Err_0 == RwaError::InsufficientBalance,
            r is Ok ==> final(self).circulating_supply == old(self).circulating_supply - amount
                && final(self).updated_at == now && spec_same_but_supply_and_updated(
                *old(self),
                *final(self),
            ),
            r is Ok ==> r->Ok_0 == (TokensBurned {
                mint: old(self).mint,
                investor: *investor,
                amount,
                circulating_supply: (old(self).circulating_supply - amount) as u64,
                timestamp: now,
            }),
    {
        if amount > self.circulating_supply {
            return Err(RwaError::InsufficientBalance);
        }
        self.circulating_supply = self.circulating_supply - amount;
        self.updated_at = now;
        Ok(
            TokensBurned {
                mint: self.mint,
                investor: *investor,
                amount,
                circulating_supply: self.circulating_supply,
                timestamp: now,
            },
        )
    }

    /// Replaces the property details: the caller must be the authority and
    /// the new details must validate. On any failure the record is unchanged.
    pub fn update_property_details(
        &mut self,
        caller: &[u8; 32],
        new_details: PropertyDetails,
        now: i64,
    ) -> (r: Result<PropertyUpdated, RwaError>)
        requires
            old(self).wf(),
        ensures
            final(self).wf(),
            r is Ok <==> (caller@ == old(self).authority@ && spec_details_decision(new_details)
                is Ok),
            r is Err ==> *final(self) == *old(self) && (if caller@ != old(self).authority@ {
                r->Err_0 == RwaError::Unauthorized
            } else {
                Err::<(), RwaError>(r->Err_0) == spec_details_decision(new_details)
            }),
            r is Ok ==> final(self).details == new_details && final(self).updated_at == now
                && spec_same_but_details_and_updated(*old(self), *final(self)),
            r is Ok ==> r->Ok_0.mint == old(self).mint && r->Ok_0.property_address
                == new_details.property_address && r->Ok_0.total_value_usd
                == new_details.total_value_usd && r->Ok_0.rental_yield_bps
                == new_details.rental_yield_bps && r->Ok_0.timestamp == now,
    {
        if !crate::wire::bytes32_eq(caller, &self.authority) {
            return Err(RwaError::Unauthorized);
        }
        match new_details.validate() {
            Ok(_) => {},
            Err(e) => {
                return Err(e);
            },
        }
        let event = PropertyUpdated {
            mint: self.mint,
            property_address: new_details.property_address.clone(),
            total_value_usd: new_details.total_value_usd,
            rental_yield_bps: new_details.rental_yield_bps,
            timestamp: now,
        };
        self.details = new_details;
        self.updated_at = now;
        Ok(event)
    }

    /// Flips whether issuance is enabled. The caller must be the authority;
    /// on failure the record is unchanged.
    pub fn toggle_property_status(&mut self, caller: &[u8; 32], now: i64) -> (r: Result<
        PropertyStatusChanged,
        RwaError,
    >)
        requires
            old(self).wf(),
        ensures
            final(self).wf(),
            r is Ok <==> caller@ == old(self).authority@,
            r is Err ==> *final(self) == *old(self) && r->Err_0 == RwaError::Unauthorized,
            r is Ok ==> final(self).is_active == !old(self).is_active && final(self).updated_at
                == now && spec_same_but_active_and_updated(*old(self), *final(self)),
            r is Ok ==> r->Ok_0 == (PropertyStatusChanged {
                mint: old(self).mint,
                is_active: !old(self).is_active,
                timestamp: now,
            }),
    {
        if !crate::wire::bytes32_eq(caller, &self.authority) {
            return Err(RwaError::Unauthorized);
        }
        self.is_active = !self.is_active;
        self.updated_at = now;
        Ok(PropertyStatusChanged { mint: self.mint, is_active: self.is_active, timestamp: now })
    }
}

/// The issuance decision: authority, active flag and supply cap are checked
/// in that order, then the compliance gate decides for the investor.
pub open spec fn spec_mint_decision(
    p: PropertyState,
    caller: Seq<u8>,
    cred_owner: Seq<u8>,
    cred_data: Seq<u8>,
    investor: Seq<u8>,
    issuer_program: Seq<u8>,
    amount: u64,
    now: int,
) -> Result<(), RwaError> {
    if caller != p.authority@ {
        Err(RwaError::Unauthorized)
    } else if !p.is_active {
        Err(RwaError::PropertyNotActive)
    } else if p.circulating_supply + amount > p.total_supply {
        Err(RwaError::ExceedsMaxSupply)
    } else {
        spec_gate_decision(cred_owner, cred_data, investor, issuer_program, now)
    }
}

/// The supply cap is enforced: an authorized mint on an active property
/// whose amount would push circulation above the cap always decides
/// `ExceedsMaxSupply`. Together with the mint contract, which leaves the
/// record untouched on every error, circulation never moves on such a mint.
pub proof fn lemma_mint_cap_enforced(
    p: PropertyState,
    caller: Seq<u8>,
    cred_owner: Seq<u8>,
    cred_data: Seq<u8>,
    investor: Seq<u8>,
    issuer_program: Seq<u8>,
    amount: u64,
    now: int,
)
    requires
        caller == p.authority@,
        p.is_active,
        p.circulating_supply + amount > p.total_supply,
    ensures
        spec_mint_decision(p, caller, cred_owner, cred_data, investor, issuer_program, amount, now)
            == Err::<(), RwaError>(RwaError::ExceedsMaxSupply),
{
}

/// Issuance requires compliance: an authorized, in-cap mint on an active
/// property decides exactly what the compliance check decides, so a denied
/// subject always fails the mint with that check's own error, and the mint
/// contract leaves the record untouched on that error.
pub proof fn lemma_mint_requires_compliance(
    p: PropertyState,
    caller: Seq<u8>,
    cred_owner: Seq<u8>,
    cred_data: Seq<u8>,
    investor: Seq<u8>,
    issuer_program: Seq<u8>,
    amount: u64,
    now: int,
)
    requires
        caller == p.authority@,
        p.is_active,
        p.circulating_supply + amount <= p.total_supply,
    ensures
        spec_mint_decision(p, caller, cred_owner, cred_data, investor, issuer_program, amount, now)
            == spec_gate_decision(cred_owner, cred_data, investor, issuer_program, now),
{
}

/// Everything except circulating supply and the update timestamp is equal.
pub open spec fn spec_same_but_supply_and_updated(a: PropertyState, b: PropertyState) -> bool {
    &&& a.authority == b.authority
    &&& a.mint == b.mint
    &&& a.property_name == b.property_name
    &&& a.property_symbol == b.property_symbol
    &&& a.total_supply == b.total_supply
    &&& a.details == b.details
    &&& a.is_active == b.is_active
    &&& a.created_at == b.created_at
}

/// Everything except the details and the update timestamp is equal.
pub open spec fn spec_same_but_details_and_updated(a: PropertyState, b: PropertyState) -> bool {
    &&& a.authority == b.authority
    &&& a.mint == b.mint
    &&& a.property_name == b.property_name
    &&& a.property_symbol == b.property_symbol
    &&& a.total_supply == b.total_supply
    &&& a.circulating_supply == b.circulating_supply
    &&& a.is_active == b.is_active
    &&& a.created_at == b.created_at
}

/// Everything except the active flag and the update timestamp is equal.
pub open spec fn spec_same_but_active_and_updated(a: PropertyState, b: PropertyState) -> bool {
    &&& a.authority == b.authority
    &&& a.mint == b.mint
    &&& a.property_name == b.property_name
    &&& a.property_symbol == b.property_symbol
    &&& a.total_supply == b.total_supply
    &&& a.circulating_supply == b.circulating_supply
    &&& a.details == b.details
    &&& a.created_at == b.created_at
}

} // verus!

