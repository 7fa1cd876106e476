//! The dividend distribution ledger.
//!
//! A deposit snapshots the circulating supply into an immutable epoch and
//! funds an epoch-scoped custody balance. Each holder then claims the
//! floor-divided proportional share of the deposited revenue, at most once:
//! a vault's well-formedness carries the conservation equation
//! `claimed + custody == total_revenue` and the uniqueness of claim records,
//! so replayed claims fail and claims can never overdraw the deposit.

use vstd::prelude::*;

use crate::errors::RwaError;
use crate::property::PropertyState;
use crate::wire::bytes32_eq;

verus! {

/// One revenue distribution period, immutable after creation.
#[derive(Debug)]
pub struct RevenueEpoch {
    /// The property this epoch belongs to.
    pub property_state: [u8; 32],
    /// Epoch number, assigned by the depositor.
    pub epoch_number: u64,
    /// Total revenue deposited for this epoch.
    pub total_revenue: u64,
    /// Circulating supply snapshot taken at deposit time.
    pub eligible_supply: u64,
    /// When the revenue was deposited.
    pub deposited_at: i64,
    /// Authority who deposited.
    pub deposited_by: [u8; 32],
    /// Whether the epoch is funded and open for claims.
    pub is_finalized: bool,
}

/// One investor's claim against one epoch, created at most once.
#[derive(Debug)]
pub struct ClaimRecord {
    /// The epoch this claim is for.
    pub epoch: [u8; 32],
    /// The investor who claimed.
    pub investor: [u8; 32],
    /// Amount paid out.
    pub amount_claimed: u64,
    /// When the claim was made.
    pub claimed_at: i64,
}

/// Revenue deposited: an epoch was created and funded.
#[derive(Debug)]
pub struct RevenueDeposited {
    /// The property the epoch belongs to.
    pub property: [u8; 32],
    /// Address of the epoch record.
    pub epoch: [u8; 32],
    /// Epoch number.
    pub epoch_number: u64,
    /// Deposited amount.
    pub amount: u64,
    /// Supply snapshot the payouts divide against.
    pub eligible_supply: u64,
    /// Authority who deposited.
    pub deposited_by: [u8; 32],
    /// When the deposit happened.
    pub timestamp: i64,
}

/// Revenue claimed: one holder was paid their share of an epoch.
#[derive(Debug)]
pub struct RevenueClaimed {
    /// The property the epoch belongs to.
    pub property: [u8; 32],
    /// Address of the epoch record.
    pub epoch: [u8; 32],
    /// Epoch number.
    pub epoch_number: u64,
    /// The investor who claimed.
    pub investor: [u8; 32],
    /// Amount paid out.
    pub amount: u64,
    /// The holder balance the share was computed from.
    pub investor_balance: u64,
    /// When the claim happened.
    pub timestamp: i64,
}

/// One epoch together with its custody balance and its claim records: the
/// ledger a distribution runs against.
#[derive(Debug)]
pub struct RevenueVault {
    /// Address of the epoch record, under which claims are keyed.
    pub epoch_key: [u8; 32],
    /// The immutable epoch data.
    pub epoch: RevenueEpoch,
    /// What custody still holds for this epoch.
    pub vault_balance: u64,
    /// Every claim recorded so far, one per investor.
    pub claims: Vec<ClaimRecord>,
}

/// The proportional share: `floor(balance * revenue / supply)`.
pub open spec fn spec_claim_share(balance: int, revenue: int, supply: int) -> int
    recommends
        supply > 0,
{
    (balance * revenue) / supply
}

/// Sum of the amounts of a sequence of claim records.
pub open spec fn spec_claimed_total(s: Seq<ClaimRecord>) -> int
    decreases s.len(),
{
    if s.len() == 0 {
        0
    } else {
        spec_claimed_total(s.drop_last()) + s.last().amount_claimed
    }
}

/// Whether some record in the sequence belongs to the investor.
pub open spec fn spec_has_claim(s: Seq<ClaimRecord>, investor: Seq<u8>) -> bool {
    exists|i: int| 0 <= i < s.len() && s[i].investor@ == investor
}

/// No two records belong to the same investor.
pub open spec fn spec_distinct_investors(s: Seq<ClaimRecord>) -> bool {
    forall|i: int, j: int|
        0 <= i < j < s.len() ==> s[i].investor@ != s[j].investor@
}

/// The deposit decision: the caller must be the property authority, the
/// property must be active, the amount positive, and someone must hold
/// tokens to distribute to.
pub open spec fn spec_deposit_decision(
    p: PropertyState,
    caller: Seq<u8>,
    amount: u64,
) -> Result<(), RwaError> {
    if caller != p.authority@ {
        Err(RwaError::Unauthorized)
    } else if !p.is_active {
        Err(RwaError::PropertyNotActive)
    } else if amount == 0 {
        Err(RwaError::InvalidAmount)
    } else if p.circulating_supply == 0 {
        Err(RwaError::NoTokenHolders)
    } else {
        Ok(())
    }
}

impl RevenueVault {
    /// Everything claims rely on: a positive supply snapshot, a finalized
    /// epoch, one claim per investor, every payout positive, and the
    /// conservation equation `claimed + custody == total_revenue`.
    pub open spec fn wf(&self) -> bool {
        &&& self.epoch.eligible_supply > 0
        &&& self.epoch.is_finalized
        &&& spec_distinct_investors(self.claims@)
        &&& (forall|i: int| 0 <= i < self.claims@.len() ==> self.claims@[i].amount_claimed >= 1)
        &&& spec_claimed_total(self.claims@) + self.vault_balance == self.epoch.total_revenue
    }

    /// The claim decision for an investor with a given current balance.
    ///
    /// An already-recorded claim fails first, whatever the balance now is;
    /// then the balance must be positive, the share must fit the payout
    /// type, must not round down to zero, and custody must cover it.
    pub open spec fn spec_claim_decision(&self, investor: Seq<u8>, balance: u64) -> Result<
        (),
        RwaError,
    > {
        let share = spec_claim_share(
            balance as int,
            self.epoch.total_revenue as int,
            self.epoch.eligible_supply as int,
        );
        if spec_has_claim(self.claims@, investor) {
            Err(RwaError::DuplicateClaim)
        } else if balance == 0 {
            Err(RwaError::InsufficientBalance)
        } else if share > u64::MAX {
            Err(RwaError::MathOverflow)
        } else if share == 0 {
            Err(RwaError::ClaimTooSmall)
        } else if self.vault_balance < share {
            Err(RwaError::InsufficientVaultBalance)
        } else {
            Ok(())
        }
    }

    /// Pays the investor their proportional share of this epoch's revenue
    /// and records the claim. The share is computed from the investor's
    /// current balance in a widened integer type, so the arithmetic itself
    /// cannot overflow; a share beyond the payout type fails instead. On any
    /// failure the vault is unchanged.
    pub fn claim_revenue(&mut self, investor: &[u8; 32], investor_balance: u64, now: i64) -> (r:
        Result<RevenueClaimed, RwaError>)
        requires
            old(self).wf(),
        ensures
            final(self).wf(),
            final(self).epoch == old(self).epoch,
            final(self).epoch_key == old(self).epoch_key,
            r is Ok <==> old(self).spec_claim_decision(investor@, investor_balance) is Ok,
            r is Err ==> *final(self) == *old(self) && Err::<(), RwaError>(r->Err_0) == old(
                self,
            ).spec_claim_decision(investor@, investor_balance),
            r is Ok ==> r->Ok_0.amount == spec_claim_share(
                investor_balance as int,
                old(self).epoch.total_revenue as int,
                old(self).epoch.eligible_supply as int,
            ),
            r is Ok ==> final(self).vault_balance == old(self).vault_balance - r->Ok_0.amount,
            r is Ok ==> final(self).claims@ == old(self).claims@.push(
                ClaimRecord {
                    epoch: old(self).epoch_key,
                    investor: *investor,
                    amount_claimed: r->Ok_0.amount,
                    claimed_at: now,
                },
            ),
            r is Ok ==> spec_has_claim(final(self).claims@, investor@),
            r is Ok ==> r->Ok_0 == (RevenueClaimed {
                property: old(self).epoch.property_state,
                epoch: old(self).epoch_key,
                epoch_number: old(self).epoch.epoch_number,
                investor: *investor,
                amount: r->Ok_0.amount,
                investor_balance,
                timestamp: now,
            }),
    {
        let ghost old_claims = self.claims@;
        let mut i: usize = 0;
        let n: usize = self.claims.len();
        while i < n
            invariant
                *self == *old(self),
                old(self).wf(),
                0 <= i <= n == self.claims@.len(),
                forall|j: int| 0 <= j < i ==> self.claims@[j].investor@ != investor@,
            decreases n - i,
        {
            if bytes32_eq(&self.claims[i].investor, investor) {
                return Err(RwaError::DuplicateClaim);
            }
            i += 1;
        }
        assert(!spec_has_claim(self.claims@, investor@));
        if investor_balance == 0 {
            return Err(RwaError::InsufficientBalance);
        }
        proof {
            vstd::arithmetic::mul::lemma_mul_upper_bound(
                investor_balance as int,
                u64::MAX as int,
                self.epoch.total_revenue as int,
                u64::MAX as int,
            );
        }
        let numerator: u128 = (investor_balance as u128) * (self.epoch.total_revenue as u128);
        let share_wide: u128 = numerator / (self.epoch.eligible_supply as u128);
        if share_wide > u64::MAX as u128 {
            return Err(RwaError::MathOverflow);
        }
        let claim_amount: u64 = share_wide as u64;
        if claim_amount == 0 {
            return Err(RwaError::ClaimTooSmall);
        }
        if self.vault_balance < claim_amount {
            return Err(RwaError::InsufficientVaultBalance);
        }
        let record = ClaimRecord {
            epoch: self.epoch_key,
            investor: *investor,
            amount_claimed: claim_amount,
            claimed_at: now,
        };
        self.claims.push(record);
        self.vault_balance = self.vault_balance - claim_amount;
        proof {
            assert(self.claims@.drop_last() =~= old_claims);
            assert(spec_distinct_investors(self.claims@));
        }
        Ok(
            RevenueClaimed {
                property: self.epoch.property_state,
                epoch: self.epoch_key,
                epoch_number: self.epoch.epoch_number,
                investor: *investor,
                amount: claim_amount,
                investor_balance,
                timestamp: now,
            },
        )
    }
}

/// Sum of a sequence of balances.
pub open spec fn spec_balance_total(s: Seq<u64>) -> int
    decreases s.len(),
{
    if s.len() == 0 {
        0
    } else {
        spec_balance_total(s.drop_last()) + s.last()
    }
}

/// Sum of the proportional shares of a sequence of balances.
pub open spec fn spec_share_total(s: Seq<u64>, revenue: int, supply: int) -> int
    decreases s.len(),
{
    if s.len() == 0 {
        0
    } else {
        spec_share_total(s.drop_last(), revenue, supply) + spec_claim_share(
            s.last() as int,
            revenue,
            supply,
        )
    }
}

/// Conservation: the claims recorded in a well-formed vault never sum to
/// more than the epoch's deposited revenue, and what custody still holds is
/// exactly the revenue minus the claims.
pub proof fn lemma_claims_conservation(v: RevenueVault)
    requires
        v.wf(),
    ensures
        spec_claimed_total(v.claims@) <= v.epoch.total_revenue,
        v.vault_balance == v.epoch.total_revenue - spec_claimed_total(v.claims@),
{
}

/// At most one claim per (epoch, holder): once a vault holds a claim record
/// for an investor, the claim decision for that investor is a replay
/// failure, whatever balance the investor has at that moment.
pub proof fn lemma_claim_at_most_once(v: RevenueVault, investor: Seq<u8>, balance: u64)
    requires
        spec_has_claim(v.claims@, investor),
    ensures
        v.spec_claim_decision(investor, balance) == Err::<(), RwaError>(RwaError::DuplicateClaim),
{
}

/// A sequence of positive balances has at least as many units as entries.
proof fn lemma_balance_count(balances: Seq<u64>)
    requires
        forall|i: int| 0 <= i < balances.len() ==> balances[i] >= 1,
    ensures
        spec_balance_total(balances) >= balances.len(),
    decreases balances.len(),
{
    if balances.len() > 0 {
        let prefix = balances.drop_last();
        assert(forall|i: int| 0 <= i < prefix.len() ==> prefix[i] == balances[i]);
        lemma_balance_count(prefix);
    }
}

/// Bounds on the summed shares: scaled by the supply, they sit between the
/// exact proportional total and that total minus one rounding loss per
/// balance.
proof fn lemma_share_total_bounds(balances: Seq<u64>, revenue: int, supply: int)
    requires
        supply > 0,
        revenue >= 0,
    ensures
        supply * spec_share_total(balances, revenue, supply) <= revenue * spec_balance_total(
            balances,
        ),
        revenue * spec_balance_total(balances) - balances.len() * (supply - 1) <= supply
            * spec_share_total(balances, revenue, supply),
    decreases balances.len(),
{
    if balances.len() == 0 {
    } else {
        let prefix = balances.drop_last();
        let b = balances.last() as int;
        let c = spec_claim_share(b, revenue, supply);
        let rem = (b * revenue) % supply;
        let stp = spec_share_total(prefix, revenue, supply);
        let btp = spec_balance_total(prefix);
        let np = prefix.len() as int;
        lemma_share_total_bounds(prefix, revenue, supply);
        vstd::arithmetic::div_mod::lemma_fundamental_div_mod(b * revenue, supply);
        vstd::arithmetic::div_mod::lemma_mod_bound(b * revenue, supply);
        assert(c == (b * revenue) / supply);
        assert(supply * c == b * revenue - rem) by (nonlinear_arith)
            requires
                b * revenue == supply * ((b * revenue) / supply) + rem,
                c == (b * revenue) / supply,
        ;
        assert(supply * (stp + c) == supply * stp + supply * c) by (nonlinear_arith);
        assert(revenue * (btp + b) == revenue * btp + revenue * b) by (nonlinear_arith);
        assert(b * revenue == revenue * b) by (nonlinear_arith);
        assert((np + 1) * (supply - 1) == np * (supply - 1) + (supply - 1)) by (nonlinear_arith);
        assert(spec_share_total(balances, revenue, supply) == stp + c);
        assert(spec_balance_total(balances) == btp + b);
    }
}

/// The residual bound of a full distribution: when holders whose balances
/// sum to exactly the eligible supply each take their floor-divided share,
/// the shares never exceed the revenue, and what rounding leaves unclaimed
/// is at most `eligible_supply - 1` units.
pub proof fn lemma_full_distribution_bounds(balances: Seq<u64>, revenue: u64, supply: u64)
    requires
        supply > 0,
        forall|i: int| 0 <= i < balances.len() ==> balances[i] >= 1,
        spec_balance_total(balances) == supply,
    ensures
        spec_share_total(balances, revenue as int, supply as int) <= revenue,
        revenue - spec_share_total(balances, revenue as int, supply as int) <= supply - 1,
{
    let s = supply as int;
    let r = revenue as int;
    let st = spec_share_total(balances, r, s);
    let n = balances.len() as int;
    lemma_share_total_bounds(balances, r, s);
    lemma_balance_count(balances);
    assert(st <= r) by (nonlinear_arith)
        requires
            s > 0,
            s * st <= r * s,
    ;
    assert(n * (s - 1) <= s * (s - 1)) by (nonlinear_arith)
        requires
            0 <= n <= s,
    ;
    assert(r - st <= s - 1) by (nonlinear_arith)
        requires
            s > 0,
            r * s - s * (s - 1) <= s * st,
    ;
}

/// Creates and funds a revenue epoch for a property: snapshots the
/// circulating supply as the eligible supply and moves `amount` into the
/// epoch's custody. Fails without creating anything when the caller is not
/// the authority, the property is inactive, the amount is zero, or nobody
/// holds tokens.
pub fn deposit_revenue(
    property: &PropertyState,
    property_key: &[u8; 32],
    epoch_key: &[u8; 32],
    caller: &[u8; 32],
    epoch_number: u64,
    amount: u64,
    now: i64,
) -> (r: Result<(RevenueVault, RevenueDeposited), RwaError>)
    ensures
        r is Ok <==> spec_deposit_decision(*property, caller@, amount) is Ok,
        r is Err ==> Err::<(), RwaError>(r->Err_0) == spec_deposit_decision(
            *property,
            caller@,
            amount,
        ),
        r is Ok ==> r->Ok_0.0.wf(),
        r is Ok ==> r->Ok_0.0 == (RevenueVault {
            epoch_key: *epoch_key,
            epoch: RevenueEpoch {
                property_state: *property_key,
                epoch_number,
                total_revenue: amount,
                eligible_supply: property.circulating_supply,
                deposited_at: now,
                deposited_by: *caller,
                is_finalized: true,
            },
            vault_balance: amount,
            claims: r->Ok_0.0.claims,
        }) && r->Ok_0.0.claims@.len() == 0,
        r is Ok ==> r->Ok_0.1 == (RevenueDeposited {
            property: *property_key,
            epoch: *epoch_key,
            epoch_number,
            amount,
            eligible_supply: property.circulating_supply,
            deposited_by: *caller,
            timestamp: now,
        }),
{
    if !bytes32_eq(caller, &property.authority) {
        return Err(RwaError::Unauthorized);
    }
    if !property.is_active {
        return Err(RwaError::PropertyNotActive);
    }
    if amount == 0 {
        return Err(RwaError::InvalidAmount);
    }
    let eligible_supply = property.circulating_supply;
    if eligible_supply == 0 {
        return Err(RwaError::NoTokenHolders);
    }
    let vault = RevenueVault {
        epoch_key: *epoch_key,
        epoch: RevenueEpoch {
            property_state: *property_key,
            epoch_number,
            total_revenue: amount,
            eligible_supply,
            deposited_at: now,
            deposited_by: *caller,
            is_finalized: true,
        },
        vault_balance: amount,
        claims: Vec::new(),
    };
    let event = RevenueDeposited {
        property: *property_key,
        epoch: *epoch_key,
        epoch_number,
        amount,
        eligible_supply,
        deposited_by: *caller,
        timestamp: now,
    };
    Ok((vault, event))
}

} // verus!
