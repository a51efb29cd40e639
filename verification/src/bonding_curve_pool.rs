//! The bonding-curve pricing engine.
//!
//! A pool prices one curve-governed asset against a quote currency from
//! closed-form curve equations over the asset's issuance `Q`:
//!
//! * buy price per token: `P_B(Q) = Q / (PC_S * PC_R) + P_I`, a linear
//!   curve starting at the initial price `P_I` and rising by
//!   `1 / (PC_S * PC_R)` per token minted;
//! * bulk buy cost: the definite integral of `P_B` from `Q` to `Q + q`;
//! * bulk buy by output: the closed-form inverse of that integral;
//! * sell prices: a flat `sell_price_coefficient` discount off the buy
//!   curve.
//!
//! Every formula is evaluated in the checked wrapper algebra, so each
//! public function either returns the exact chain value or reports
//! `CalculatePriceFailed`; the contracts below state the chains
//! themselves, over the models of the wrapper operations.
//!
//! The [`Module::buy`] transition rebalances the pool's reserve against
//! the reserve the sell curve would owe, and on surplus distributes a
//! fixed fraction of the excess across the beneficiary accounts of a
//! [`DistributionPolicy`], handing back the buy-back swap the caller
//! routes through an external liquidity source.

use vstd::prelude::*;

use crate::assets;
use crate::assets::{plan_apply, plan_ok};
use crate::fixed::{Fixed, DIV};
use crate::fixed_wrapper::{chk_add, chk_div, chk_mul, chk_sqrt, chk_sub, FixedWrapper};
use crate::primitives::{
    AccountId, AssetId, Balance, DEXId, Error, SwapAmount, SwapOutcome, TechAccountId,
};

verus! {

/// The buy price per token at issuance `q`:
/// `q / (pc_s * pc_r) + p_i`, evaluated in the checked algebra.
pub open spec fn buy_price_chain(q: int, p_i: int, pc_s: int, pc_r: int) -> Option<int> {
    chk_add(chk_div(Some(q), chk_mul(Some(pc_s), Some(pc_r))), Some(p_i))
}

/// The cost of buying `qty` tokens at issuance `q`: the definite
/// integral of the buy price from `q` to `q + qty`,
/// `((q+qty) / (2*pc_s*pc_r) + p_i) * (q+qty) - (q / (2*pc_s*pc_r) + p_i) * q`,
/// evaluated in the checked algebra.
pub open spec fn buy_in_tokens_chain(q: int, qty: int, p_i: int, pc_s: int, pc_r: int) -> Option<
    int,
> {
    let q_plus_q = chk_add(Some(q), Some(qty));
    let two = chk_mul(chk_mul(Some(2 * DIV), Some(pc_s)), Some(pc_r));
    let to = chk_mul(chk_add(chk_div(q_plus_q, two), Some(p_i)), q_plus_q);
    let fr = chk_mul(chk_add(chk_div(Some(q), two), Some(p_i)), Some(q));
    chk_sub(to, fr)
}

/// The cost chain for buying by target output: the inverse of the bulk
/// integral, `PC * sqrt((q^2 + 2*q*PC*p_i + PC^2*p_i^2 + 2*PC*qty) / PC^2) - q - PC*p_i`
/// with `PC = pc_s * pc_r`, evaluated in the checked algebra.
pub open spec fn buy_out_tokens_chain(q: int, qty: int, p_i: int, pc_s: int, pc_r: int) -> Option<
    int,
> {
    let pc = chk_mul(Some(pc_s), Some(pc_r));
    let pc_sqr = chk_mul(pc, pc);
    let pc_p_i = chk_mul(pc, Some(p_i));
    let two = Some(2 * DIV as int);
    let inner = chk_add(
        chk_add(
            chk_add(
                chk_mul(Some(q), Some(q)),
                chk_mul(chk_mul(chk_mul(two, Some(q)), pc), Some(p_i)),
            ),
            chk_mul(chk_mul(pc_sqr, Some(p_i)), Some(p_i)),
        ),
        chk_mul(chk_mul(two, pc), Some(qty)),
    );
    let root = chk_sqrt(chk_div(inner, pc_sqr));
    chk_sub(chk_sub(chk_mul(pc, root), Some(q)), pc_p_i)
}

/// The sell price per token: the buy price scaled by the sell
/// coefficient.
pub open spec fn sell_price_chain(q: int, p_i: int, pc_s: int, pc_r: int, coeff: int) -> Option<
    int,
> {
    chk_mul(Some(coeff), buy_price_chain(q, p_i, pc_s, pc_r))
}

/// The revenue of selling `qty` tokens: the bulk buy cost scaled by the
/// sell coefficient.
pub open spec fn sell_tokens_chain(
    q: int,
    qty: int,
    p_i: int,
    pc_s: int,
    pc_r: int,
    coeff: int,
) -> Option<int> {
    chk_mul(Some(coeff), buy_in_tokens_chain(q, qty, p_i, pc_s, pc_r))
}

/// Monotonic pricing: at a positive curve slope divisor `pc`, a higher
/// issuance gives a strictly higher buy price, as soon as the issuance
/// step is at least one slope quantum (a smaller step can vanish in the
/// truncation of the fixed scale).
pub proof fn lemma_buy_price_monotonic(
    q1: int,
    q2: int,
    p_i: int,
    pc_s: int,
    pc_r: int,
    p1: int,
    p2: int,
)
    requires
        0 <= q1,
        q1 < q2,
        buy_price_chain(q1, p_i, pc_s, pc_r) == Some(p1),
        buy_price_chain(q2, p_i, pc_s, pc_r) == Some(p2),
        chk_mul(Some(pc_s), Some(pc_r)) matches Some(pc) && pc > 0 && (q2 - q1) * DIV >= pc,
    ensures
        p2 > p1,
{
    let pc = chk_mul(Some(pc_s), Some(pc_r))->0;
    let x1 = q1 * (DIV as int);
    let x2 = q2 * (DIV as int);
    let d1 = crate::fixed::tdiv(x1, pc);
    let d2 = crate::fixed::tdiv(x2, pc);
    assert(d1 == x1 / pc);
    assert(d2 == x2 / pc);
    vstd::arithmetic::div_mod::lemma_fundamental_div_mod(x1, pc);
    vstd::arithmetic::div_mod::lemma_fundamental_div_mod(x2, pc);
    vstd::arithmetic::div_mod::lemma_mod_division_less_than_divisor(x1, pc);
    vstd::arithmetic::div_mod::lemma_mod_division_less_than_divisor(x2, pc);
    assert(d2 >= d1 + 1) by (nonlinear_arith)
        requires
            x2 >= x1 + pc,
            x1 == pc * d1 + (x1 % pc),
            x2 == pc * d2 + (x2 % pc),
            0 <= x1 % pc < pc,
            0 <= x2 % pc < pc,
            pc > 0,
    ;
}

/// Zero-quantity identity: buying zero tokens costs exactly zero
/// wherever the cost chain yields a value at all, and the discounted
/// sell revenue of zero tokens is likewise exactly zero.
pub proof fn lemma_zero_quantity_identity(q: int, p_i: int, pc_s: int, pc_r: int, coeff: int)
    ensures
        buy_in_tokens_chain(q, 0, p_i, pc_s, pc_r) is None || buy_in_tokens_chain(
            q,
            0,
            p_i,
            pc_s,
            pc_r,
        ) == Some(0int),
        sell_tokens_chain(q, 0, p_i, pc_s, pc_r, coeff) is None || sell_tokens_chain(
            q,
            0,
            p_i,
            pc_s,
            pc_r,
            coeff,
        ) == Some(0int),
{
    let cost = buy_in_tokens_chain(q, 0, p_i, pc_s, pc_r);
    if cost is Some {
        assert(cost == Some(0int));
    }
    let revenue = sell_tokens_chain(q, 0, p_i, pc_s, pc_r, coeff);
    if revenue is Some {
        assert(crate::fixed::tdiv(coeff * 0, DIV as int) == 0);
        assert(revenue == Some(0int));
    }
}

/// Sell-discount invariant: the sell chains are exactly the buy chains
/// scaled by the sell price coefficient, with no independent drift.
pub proof fn lemma_sell_price_is_discounted_buy(
    q: int,
    qty: int,
    p_i: int,
    pc_s: int,
    pc_r: int,
    coeff: int,
)
    ensures
        sell_price_chain(q, p_i, pc_s, pc_r, coeff) == chk_mul(
            Some(coeff),
            buy_price_chain(q, p_i, pc_s, pc_r),
        ),
        sell_tokens_chain(q, qty, p_i, pc_s, pc_r, coeff) == chk_mul(
            Some(coeff),
            buy_in_tokens_chain(q, qty, p_i, pc_s, pc_r),
        ),
{
}

/// The five beneficiary accounts surplus is distributed to.
#[derive(Clone, Copy, PartialEq, Eq, Structural, Debug)]
pub struct DistributionAccounts {
    /// Allocation pool for the curve token's holders.
    pub xor_allocation: AccountId,
    /// Citizen rewards.
    pub sora_citizens: AccountId,
    /// Merchant rewards.
    pub stores_and_shops: AccountId,
    /// Governance and development fund.
    pub parliament_and_development: AccountId,
    /// General projects fund.
    pub projects: AccountId,
}

impl Default for DistributionAccounts {
    /// All beneficiary accounts unset.
    fn default() -> (r: Self)
        ensures
            r.xor_allocation == 0,
            r.sora_citizens == 0,
            r.stores_and_shops == 0,
            r.parliament_and_development == 0,
            r.projects == 0,
    {
        Self {
            xor_allocation: 0,
            sora_citizens: 0,
            stores_and_shops: 0,
            parliament_and_development: 0,
            projects: 0,
        }
    }
}

/// The fixed weight table of the reserve-rebalancing policy: what part of
/// a reserve surplus is freed, and how the freed value is split. The
/// weights are constants of the policy, not configuration; the six shares
/// sum to exactly one.
#[derive(Clone, Copy, PartialEq, Eq, Structural, Debug)]
pub struct DistributionPolicy {
    /// Part of the surplus that is freed at all: 20%.
    pub reserves_free_coefficient: Fixed,
    /// Holder allocation: 50% of 90%, so 45% of the freed value.
    pub val_holders_xor_alloc: Fixed,
    /// Holder buy-back, routed through the external swap: 50% of 10%,
    /// so 5%.
    pub val_holders_buy_back: Fixed,
    /// Citizen share: 1% of the 50% project half, so 0.5%.
    pub projects_sora_citizens: Fixed,
    /// Merchant share: 4% of the project half, so 2%.
    pub projects_stores_and_shops: Fixed,
    /// Governance share: 5% of the project half, so 2.5%.
    pub projects_parliament_and_development: Fixed,
    /// General projects: 90% of the project half, so 45%.
    pub projects_other: Fixed,
}

impl DistributionPolicy {
    /// The standard policy described above.
    pub fn standard() -> (r: DistributionPolicy)
        ensures
            r.reserves_free_coefficient.inner == 200,
            r.val_holders_xor_alloc.inner == 450,
            r.val_holders_buy_back.inner == 50,
            r.projects_sora_citizens.inner == 5,
            r.projects_stores_and_shops.inner == 20,
            r.projects_parliament_and_development.inner == 25,
            r.projects_other.inner == 450,
    {
        DistributionPolicy {
            reserves_free_coefficient: Fixed { inner: 200 },
            val_holders_xor_alloc: Fixed { inner: 450 },
            val_holders_buy_back: Fixed { inner: 50 },
            projects_sora_citizens: Fixed { inner: 5 },
            projects_stores_and_shops: Fixed { inner: 20 },
            projects_parliament_and_development: Fixed { inner: 25 },
            projects_other: Fixed { inner: 450 },
        }
    }
}

/// The reserve recorded by the newest entry for `d`, zero when there is
/// none.
pub open spec fn reserve_in(s: Seq<(DEXId, Fixed)>, d: DEXId) -> int
    decreases s.len(),
{
    if s.len() == 0 {
        0
    } else if s.last().0 == d {
        s.last().1.inner as int
    } else {
        reserve_in(s.drop_last(), d)
    }
}

/// Appending a reserve entry updates the reserve journal at exactly that
/// market.
pub proof fn lemma_reserves_push(s: Seq<(DEXId, Fixed)>, d: DEXId, v: Fixed)
    ensures
        forall|x: DEXId| #[trigger]
            reserve_in(s.push((d, v)), x) == (if x == d {
                v.inner as int
            } else {
                reserve_in(s, x)
            }),
{
    let s2 = s.push((d, v));
    assert(s2.drop_last() =~= s);
    assert forall|x: DEXId| #[trigger]
        reserve_in(s2, x) == (if x == d {
            v.inner as int
        } else {
            reserve_in(s, x)
        }) by {
        assert(s2.last() == (d, v));
    }
}

/// The per-market curve parameters, the reserve ledger, and the accounts
/// the rebalancing policy pays into.
pub struct Module {
    initial_price: Fixed,
    price_change_step: Fixed,
    price_change_rate: Fixed,
    sell_price_coefficient: Fixed,
    base_asset_id: AssetId,
    reserves_acc: TechAccountId<AccountId, AssetId, DEXId>,
    distribution_accounts: DistributionAccounts,
    reserves: Vec<(DEXId, Fixed)>,
}

impl Module {
    /// The configured initial token price.
    pub closed spec fn spec_initial_price(&self) -> int {
        self.initial_price.inner as int
    }

    /// The configured price change step.
    pub closed spec fn spec_price_change_step(&self) -> int {
        self.price_change_step.inner as int
    }

    /// The configured price change rate.
    pub closed spec fn spec_price_change_rate(&self) -> int {
        self.price_change_rate.inner as int
    }

    /// The configured sell price coefficient.
    pub closed spec fn spec_sell_price_coefficient(&self) -> int {
        self.sell_price_coefficient.inner as int
    }

    /// The configured base asset.
    pub closed spec fn spec_base_asset_id(&self) -> AssetId {
        self.base_asset_id
    }

    /// The configured reserve-holding technical account.
    pub closed spec fn spec_reserves_acc(&self) -> TechAccountId<AccountId, AssetId, DEXId> {
        self.reserves_acc
    }

    /// The configured beneficiary accounts.
    pub closed spec fn spec_distribution_accounts(&self) -> DistributionAccounts {
        self.distribution_accounts
    }

    /// The reserve held for a market, at the fixed scale.
    pub closed spec fn spec_reserve(&self, d: DEXId) -> int {
        reserve_in(self.reserves@, d)
    }

    /// A pool with the given curve parameters and accounts, and every
    /// reserve zero.
    pub fn new(
        initial_price: Fixed,
        price_change_step: Fixed,
        price_change_rate: Fixed,
        sell_price_coefficient: Fixed,
        base_asset_id: AssetId,
        reserves_acc: TechAccountId<AccountId, AssetId, DEXId>,
        distribution_accounts: DistributionAccounts,
    ) -> (r: Module)
        ensures
            r.spec_initial_price() == initial_price.inner,
            r.spec_price_change_step() == price_change_step.inner,
            r.spec_price_change_rate() == price_change_rate.inner,
            r.spec_sell_price_coefficient() == sell_price_coefficient.inner,
            r.spec_base_asset_id() == base_asset_id,
            r.spec_reserves_acc() == reserves_acc,
            r.spec_distribution_accounts() == distribution_accounts,
            forall|d: DEXId| r.spec_reserve(d) == 0,
    {
        Module {
            initial_price,
            price_change_step,
            price_change_rate,
            sell_price_coefficient,
            base_asset_id,
            reserves_acc,
            distribution_accounts,
            reserves: Vec::new(),
        }
    }

    /// The configured initial token price.
    pub fn initial_price(&self) -> (r: Fixed)
        ensures
            r.inner == self.spec_initial_price(),
    {
        self.initial_price
    }

    /// The configured price change step.
    pub fn price_change_step(&self) -> (r: Fixed)
        ensures
            r.inner == self.spec_price_change_step(),
    {
        self.price_change_step
    }

    /// The configured price change rate.
    pub fn price_change_rate(&self) -> (r: Fixed)
        ensures
            r.inner == self.spec_price_change_rate(),
    {
        self.price_change_rate
    }

    /// The configured sell price coefficient.
    pub fn sell_price_coefficient(&self) -> (r: Fixed)
        ensures
            r.inner == self.spec_sell_price_coefficient(),
    {
        self.sell_price_coefficient
    }

    /// The configured reserve-holding technical account.
    pub fn reserves_acc(&self) -> (r: TechAccountId<AccountId, AssetId, DEXId>)
        ensures
            r == self.spec_reserves_acc(),
    {
        self.reserves_acc
    }

    /// The configured beneficiary accounts.
    pub fn distribution_accounts(&self) -> (r: DistributionAccounts)
        ensures
            r == self.spec_distribution_accounts(),
    {
        self.distribution_accounts
    }

    /// The reserve held for a market.
    pub fn reserves(&self, dex_id: DEXId) -> (r: Fixed)
        ensures
            r.inner == self.spec_reserve(dex_id),
    {
        let s = &self.reserves;
        let ghost full = s@;
        let mut i: usize = s.len();
        proof {
            assert(full.take(i as int) =~= full);
        }
        while i > 0
            invariant
                i <= s.len(),
                s@ == full,
                self.reserves@ == full,
                reserve_in(full, dex_id) == reserve_in(full.take(i as int), dex_id),
            decreases i,
        {
            i = i - 1;
            assert(full.take(i + 1).last() == full[i as int]);
            assert(full.take(i + 1).drop_last() =~= full.take(i as int));
            if s[i].0 == dex_id {
                return s[i].1;
            }
        }
        assert(full.take(0) =~= Seq::<(DEXId, Fixed)>::empty());
        Fixed { inner: 0 }
    }

    /// Calculates and returns the current buy price for one token.
    ///
    /// For every `PC_S` tokens the price goes up by `PC_R`:
    /// `P_B(Q) = Q / (PC_S * PC_R) + P_I` at issuance `Q`.
    pub fn buy_price(&self, assets_module: &assets::Module, asset_id: AssetId) -> (r: Result<
        Fixed,
        Error,
    >)
        ensures
            match r {
                Ok(p) => assets_module.spec_asset_exists(asset_id) && buy_price_chain(
                    assets_module.spec_issuance(asset_id),
                    self.spec_initial_price(),
                    self.spec_price_change_step(),
                    self.spec_price_change_rate(),
                ) == Some(p.inner as int),
                Err(Error::AssetIdNotExists) => !assets_module.spec_asset_exists(asset_id),
                Err(Error::CalculatePriceFailed) => assets_module.spec_asset_exists(asset_id)
                    && buy_price_chain(
                    assets_module.spec_issuance(asset_id),
                    self.spec_initial_price(),
                    self.spec_price_change_step(),
                    self.spec_price_change_rate(),
                ) is None,
                _ => false,
            },
    {
        let total_issuance = assets_module.total_issuance(asset_id)?;
        let q = FixedWrapper::from_balance(total_issuance);
        let p_i = FixedWrapper::from_fixed(self.initial_price);
        let pc_s = FixedWrapper::from_fixed(self.price_change_step);
        let pc_r = FixedWrapper::from_fixed(self.price_change_rate);
        let price = q.div(pc_s.mul(pc_r)).add(p_i);
        match price.get() {
            Some(p) => Ok(p),
            None => Err(Error::CalculatePriceFailed),
        }
    }

    /// Calculates and returns the current buy price for some amount of
    /// tokens: the definite integral of the buy price from the current
    /// issuance `Q` to `Q + quantity`.
    pub fn buy_in_tokens_price(
        &self,
        assets_module: &assets::Module,
        asset_id: AssetId,
        quantity: Balance,
    ) -> (r: Result<Fixed, Error>)
        ensures
            match r {
                Ok(p) => assets_module.spec_asset_exists(asset_id) && buy_in_tokens_chain(
                    assets_module.spec_issuance(asset_id),
                    quantity.0.inner as int,
                    self.spec_initial_price(),
                    self.spec_price_change_step(),
                    self.spec_price_change_rate(),
                ) == Some(p.inner as int),
                Err(Error::AssetIdNotExists) => !assets_module.spec_asset_exists(asset_id),
                Err(Error::CalculatePriceFailed) => assets_module.spec_asset_exists(asset_id)
                    && buy_in_tokens_chain(
                    assets_module.spec_issuance(asset_id),
                    quantity.0.inner as int,
                    self.spec_initial_price(),
                    self.spec_price_change_step(),
                    self.spec_price_change_rate(),
                ) is None,
                _ => false,
            },
    {
        let total_issuance = assets_module.total_issuance(asset_id)?;
        let q = FixedWrapper::from_balance(total_issuance);
        let p_i = FixedWrapper::from_fixed(self.initial_price);
        let pc_s = FixedWrapper::from_fixed(self.price_change_step);
        let pc_r = FixedWrapper::from_fixed(self.price_change_rate);

        let q_plus_q = q.add(FixedWrapper::from_balance(quantity));
        let two_times_pc_s_times_pc_r = FixedWrapper::from_integer(2).mul(pc_s).mul(pc_r);
        let to = q_plus_q.div(two_times_pc_s_times_pc_r).add(p_i).mul(q_plus_q);
        let fr = q.div(two_times_pc_s_times_pc_r).add(p_i).mul(q);
        let price = to.sub(fr);
        match price.get() {
            Some(p) => Ok(p),
            None => Err(Error::CalculatePriceFailed),
        }
    }

    /// Calculates and returns the token amount a spend of `quantity`
    /// reaches: the closed-form inverse of the bulk-buy integral, solved
    /// for the upper issuance bound at a fixed spend, using the
    /// deterministic integer square root.
    pub fn buy_out_tokens_price(
        &self,
        assets_module: &assets::Module,
        asset_id: AssetId,
        quantity: Balance,
    ) -> (r: Result<Fixed, Error>)
        ensures
            match r {
                Ok(p) => assets_module.spec_asset_exists(asset_id) && buy_out_tokens_chain(
                    assets_module.spec_issuance(asset_id),
                    quantity.0.inner as int,
                    self.spec_initial_price(),
                    self.spec_price_change_step(),
                    self.spec_price_change_rate(),
                ) == Some(p.inner as int),
                Err(Error::AssetIdNotExists) => !assets_module.spec_asset_exists(asset_id),
                Err(Error::CalculatePriceFailed) => assets_module.spec_asset_exists(asset_id)
                    && buy_out_tokens_chain(
                    assets_module.spec_issuance(asset_id),
                    quantity.0.inner as int,
                    self.spec_initial_price(),
                    self.spec_price_change_step(),
                    self.spec_price_change_rate(),
                ) is None,
                _ => false,
            },
    {
        let total_issuance = assets_module.total_issuance(asset_id)?;
        let q = FixedWrapper::from_balance(total_issuance);
        let p_i = FixedWrapper::from_fixed(self.initial_price);
        let pc_s = FixedWrapper::from_fixed(self.price_change_step);
        let pc_r = FixedWrapper::from_fixed(self.price_change_rate);

        let qty = FixedWrapper::from_balance(quantity);
        let two = FixedWrapper::from_integer(2);
        let pc = pc_s.mul(pc_r);
        let pc_sqr = pc.mul(pc);
        let pc_times_p_i = pc.mul(p_i);
        let inner = q.mul(q).add(two.mul(q).mul(pc).mul(p_i)).add(
            pc_sqr.mul(p_i).mul(p_i),
        ).add(two.mul(pc).mul(qty));
        let price = pc.mul(inner.div(pc_sqr).sqrt()).sub(q).sub(pc_times_p_i);
        match price.get() {
            Some(p) => Ok(p),
            None => Err(Error::CalculatePriceFailed),
        }
    }

    /// Calculates and returns the current sell price for one token: the
    /// buy price at the `sell_price_coefficient` discount.
    pub fn sell_price(&self, assets_module: &assets::Module, asset_id: AssetId) -> (r: Result<
        Fixed,
        Error,
    >)
        ensures
            match r {
                Ok(p) => assets_module.spec_asset_exists(asset_id) && sell_price_chain(
                    assets_module.spec_issuance(asset_id),
                    self.spec_initial_price(),
                    self.spec_price_change_step(),
                    self.spec_price_change_rate(),
                    self.spec_sell_price_coefficient(),
                ) == Some(p.inner as int),
                Err(Error::AssetIdNotExists) => !assets_module.spec_asset_exists(asset_id),
                Err(Error::CalculatePriceFailed) => assets_module.spec_asset_exists(asset_id)
                    && sell_price_chain(
                    assets_module.spec_issuance(asset_id),
                    self.spec_initial_price(),
                    self.spec_price_change_step(),
                    self.spec_price_change_rate(),
                    self.spec_sell_price_coefficient(),
                ) is None,
                _ => false,
            },
    {
        let p_b = self.buy_price(assets_module, asset_id)?;
        let p_sc = FixedWrapper::from_fixed(self.sell_price_coefficient);
        let price = p_sc.mul(FixedWrapper::from_fixed(p_b));
        match price.get() {
            Some(p) => Ok(p),
            None => Err(Error::CalculatePriceFailed),
        }
    }

    /// Calculates and returns the current sell revenue for some amount
    /// of tokens: the bulk buy cost at the `sell_price_coefficient`
    /// discount.
    pub fn sell_tokens_price(
        &self,
        assets_module: &assets::Module,
        asset_id: AssetId,
        quantity: Balance,
    ) -> (r: Result<Fixed, Error>)
        ensures
            match r {
                Ok(p) => assets_module.spec_asset_exists(asset_id) && sell_tokens_chain(
                    assets_module.spec_issuance(asset_id),
                    quantity.0.inner as int,
                    self.spec_initial_price(),
                    self.spec_price_change_step(),
                    self.spec_price_change_rate(),
                    self.spec_sell_price_coefficient(),
                ) == Some(p.inner as int),
                Err(Error::AssetIdNotExists) => !assets_module.spec_asset_exists(asset_id),
                Err(Error::CalculatePriceFailed) => assets_module.spec_asset_exists(asset_id)
                    && sell_tokens_chain(
                    assets_module.spec_issuance(asset_id),
                    quantity.0.inner as int,
                    self.spec_initial_price(),
                    self.spec_price_change_step(),
                    self.spec_price_change_rate(),
                    self.spec_sell_price_coefficient(),
                ) is None,
                _ => false,
            },
    {
        let p_bt = self.buy_in_tokens_price(assets_module, asset_id, quantity)?;
        let p_sc = FixedWrapper::from_fixed(self.sell_price_coefficient);
        let price = p_sc.mul(FixedWrapper::from_fixed(p_bt));
        match price.get() {
            Some(p) => Ok(p),
            None => Err(Error::CalculatePriceFailed),
        }
    }
}

/// The part of a freed surplus that one weight assigns: the product at
/// the fixed scale, truncated toward zero.
pub open spec fn share_value(free: int, coeff: int) -> int {
    crate::fixed::tdiv(free * coeff, DIV as int)
}

/// The freed amount of a surplus `r1 - re`: twenty percent of the
/// difference, evaluated in the checked algebra.
pub open spec fn free_chain(r1: int, re: int) -> Option<int> {
    chk_mul(Some(200), chk_sub(Some(r1), Some(re)))
}

/// The five beneficiary transfers that distribute a freed amount, in the
/// order they are applied.
pub open spec fn distribution_plan(accs: DistributionAccounts, free: int) -> Seq<
    (AccountId, Fixed),
> {
    seq![
        (accs.xor_allocation, (Fixed { inner: share_value(free, 450) as i64 })),
        (accs.projects, (Fixed { inner: share_value(free, 450) as i64 })),
        (accs.sora_citizens, (Fixed { inner: share_value(free, 5) as i64 })),
        (accs.stores_and_shops, (Fixed { inner: share_value(free, 20) as i64 })),
        (accs.parliament_and_development, (Fixed { inner: share_value(free, 25) as i64 })),
    ]
}

/// Whether every arithmetic step of the surplus branch succeeds: the
/// difference, the freed amount, the six shares, and the reserve left
/// after freeing.
pub open spec fn surplus_calc_ok(r1: int, re: int) -> bool {
    let diff_o = chk_sub(Some(r1), Some(re));
    let free_o = free_chain(r1, re);
    &&& diff_o is Some
    &&& free_o is Some
    &&& chk_mul(free_o, Some(450)) is Some
    &&& chk_mul(free_o, Some(5)) is Some
    &&& chk_mul(free_o, Some(20)) is Some
    &&& chk_mul(free_o, Some(25)) is Some
    &&& chk_mul(free_o, Some(50)) is Some
    &&& chk_sub(Some(r1), free_o) is Some
}

/// Reserve conservation under surplus: the six weighted shares of a
/// freed amount (the five beneficiary transfers and the holder buy-back)
/// add up to the freed amount itself, short of it by less than one
/// rounding step of the fixed scale per share.
pub proof fn lemma_distribution_conservation(free: int)
    requires
        0 <= free,
    ensures
        ({
            let total = share_value(free, 450) + share_value(free, 450)
                + share_value(free, 5) + share_value(free, 20) + share_value(
                free,
                25,
            ) + share_value(free, 50);
            free - 6 < total <= free
        }),
{
    let d = DIV as int;
    let f45 = free * 450;
    let f05 = free * 5;
    let f2 = free * 20;
    let f25 = free * 25;
    let f5 = free * 50;
    assert(share_value(free, 450) == f45 / d);
    assert(share_value(free, 5) == f05 / d);
    assert(share_value(free, 20) == f2 / d);
    assert(share_value(free, 25) == f25 / d);
    assert(share_value(free, 50) == f5 / d);
    vstd::arithmetic::div_mod::lemma_fundamental_div_mod(f45, d);
    vstd::arithmetic::div_mod::lemma_fundamental_div_mod(f05, d);
    vstd::arithmetic::div_mod::lemma_fundamental_div_mod(f2, d);
    vstd::arithmetic::div_mod::lemma_fundamental_div_mod(f25, d);
    vstd::arithmetic::div_mod::lemma_fundamental_div_mod(f5, d);
    vstd::arithmetic::div_mod::lemma_mod_division_less_than_divisor(f45, d);
    vstd::arithmetic::div_mod::lemma_mod_division_less_than_divisor(f05, d);
    vstd::arithmetic::div_mod::lemma_mod_division_less_than_divisor(f2, d);
    vstd::arithmetic::div_mod::lemma_mod_division_less_than_divisor(f25, d);
    vstd::arithmetic::div_mod::lemma_mod_division_less_than_divisor(f5, d);
    assert(2 * f45 + f05 + f2 + f25 + f5 == free * d);
    assert(d * (2 * (f45 / d) + f05 / d + f2 / d + f25 / d + f5 / d) == free * d - (2 * (f45 % d)
        + f05 % d + f2 % d + f25 % d + f5 % d)) by (nonlinear_arith)
        requires
            f45 == d * (f45 / d) + f45 % d,
            f05 == d * (f05 / d) + f05 % d,
            f2 == d * (f2 / d) + f2 % d,
            f25 == d * (f25 / d) + f25 % d,
            f5 == d * (f5 / d) + f5 % d,
            2 * f45 + f05 + f2 + f25 + f5 == free * d,
    ;
    let total = 2 * (f45 / d) + f05 / d + f2 / d + f25 / d + f5 / d;
    assert(d * total == free * d - (2 * (f45 % d) + f05 % d + f2 % d + f25 % d + f5 % d));
    assert(free - 6 < total <= free) by (nonlinear_arith)
        requires
            d == 1_000,
            d * total == free * d - (2 * (f45 % d) + f05 % d + f2 % d + f25 % d + f5 % d),
            0 <= f45 % d < d,
            0 <= f05 % d < d,
            0 <= f2 % d < d,
            0 <= f25 % d < d,
            0 <= f5 % d < d,
    ;
}

impl Module {
    /// Appends a reserve entry for a market.
    fn set_reserve(&mut self, dex_id: DEXId, v: Fixed)
        ensures
            forall|d: DEXId| #[trigger]
                final(self).spec_reserve(d) == (if d == dex_id {
                    v.inner as int
                } else {
                    old(self).spec_reserve(d)
                }),
            final(self).spec_initial_price() == old(self).spec_initial_price(),
            final(self).spec_price_change_step() == old(self).spec_price_change_step(),
            final(self).spec_price_change_rate() == old(self).spec_price_change_rate(),
            final(self).spec_sell_price_coefficient() == old(self).spec_sell_price_coefficient(),
            final(self).spec_base_asset_id() == old(self).spec_base_asset_id(),
            final(self).spec_reserves_acc() == old(self).spec_reserves_acc(),
            final(self).spec_distribution_accounts() == old(self).spec_distribution_accounts(),
    {
        proof {
            lemma_reserves_push(self.reserves@, dex_id, v);
        }
        self.reserves.push((dex_id, v));
    }

    /// The reserve-rebalancing buy transition, executed atomically.
    ///
    /// The pool reads its reserve `R` for the market and the reserve the
    /// sell curve would owe against the whole issuance, `R_expected`.
    /// When the pool is under-collateralized (`R < R_expected`) the paid
    /// amount only replenishes the reserve. When the updated reserve
    /// exceeds `R_expected`, twenty percent of the excess is freed: the
    /// five weighted beneficiary transfers leave the reserve-holding
    /// technical account all-or-nothing, the freed amount leaves the
    /// recorded reserve, and the holder buy-back share is returned as the
    /// swap the caller routes through the external liquidity source.
    ///
    /// Any arithmetic failure aborts the whole transition with
    /// `CalculatePriceFailed` before any state is touched; an unpayable
    /// distribution aborts it with `InsufficientBalance`; a reserve
    /// account that wraps no ledger account aborts it with
    /// `MissingAccount`.
    pub fn buy(
        &mut self,
        assets_module: &mut assets::Module,
        dex_id: DEXId,
        asset_id: AssetId,
        for_amount: Balance,
        _from_account_id: AccountId,
    ) -> (r: Result<Option<SwapAmount<Fixed>>, Error>)
        ensures
            ({
                let q = old(assets_module).spec_issuance(asset_id);
                let exists_a = old(assets_module).spec_asset_exists(asset_id);
                let re_o = sell_tokens_chain(
                    q,
                    q,
                    old(self).spec_initial_price(),
                    old(self).spec_price_change_step(),
                    old(self).spec_price_change_rate(),
                    old(self).spec_sell_price_coefficient(),
                );
                let r0 = old(self).spec_reserve(dex_id);
                let amt = for_amount.0.inner as int;
                match r {
                    Err(Error::AssetIdNotExists) => !exists_a && *final(self) == *old(self)
                        && *final(assets_module) == *old(assets_module),
                    Err(Error::CalculatePriceFailed) => exists_a && *final(self) == *old(self)
                        && *final(assets_module) == *old(assets_module) && (re_o is None || (
                    re_o matches Some(re) && ({
                        let r1_o = if r0 < re {
                            chk_add(Some(r0), Some(amt))
                        } else {
                            Some(r0)
                        };
                        r1_o is None || (r1_o matches Some(r1) && r1 > re && !surplus_calc_ok(
                            r1,
                            re,
                        ))
                    }))),
                    Err(Error::MissingAccount) => exists_a && *final(self) == *old(self)
                        && *final(assets_module) == *old(assets_module) && (re_o matches Some(re)
                        && ({
                        let r1_o = if r0 < re {
                            chk_add(Some(r0), Some(amt))
                        } else {
                            Some(r0)
                        };
                        r1_o matches Some(r1) && r1 > re && surplus_calc_ok(r1, re) && !(old(
                            self,
                        ).spec_reserves_acc() matches TechAccountId::Wrapped(_))
                    })),
                    Err(Error::InsufficientBalance) => exists_a && *final(self) == *old(self)
                        && *final(assets_module) == *old(assets_module) && (re_o matches Some(re)
                        && ({
                        let r1_o = if r0 < re {
                            chk_add(Some(r0), Some(amt))
                        } else {
                            Some(r0)
                        };
                        r1_o matches Some(r1) && r1 > re && surplus_calc_ok(r1, re) && (old(
                            self,
                        ).spec_reserves_acc() matches TechAccountId::Wrapped(acc) && ({
                            !plan_ok(
                                old(assets_module).spec_balances(),
                                asset_id,
                                acc,
                                distribution_plan(
                                    old(self).spec_distribution_accounts(),
                                    share_value((chk_sub(Some(r1), Some(re)))->0, 200),
                                ),
                            )
                        }))
                    })),
                    Ok(sw) => exists_a && (re_o matches Some(re) && ({
                        let r1_o = if r0 < re {
                            chk_add(Some(r0), Some(amt))
                        } else {
                            Some(r0)
                        };
                        r1_o matches Some(r1) && ({
                            if r1 <= re {
                                &&& sw is None
                                &&& *final(assets_module) == *old(assets_module)
                                &&& forall|d: DEXId| #[trigger]
                                    final(self).spec_reserve(d) == (if d == dex_id {
                                        r1
                                    } else {
                                        old(self).spec_reserve(d)
                                    })
                            } else {
                                let free = share_value((chk_sub(Some(r1), Some(re)))->0, 200);
                                &&& surplus_calc_ok(r1, re)
                                &&& old(self).spec_reserves_acc() matches TechAccountId::Wrapped(
                                    acc,
                                ) && ({
                                    let plan = distribution_plan(
                                        old(self).spec_distribution_accounts(),
                                        free,
                                    );
                                    &&& plan_ok(
                                        old(assets_module).spec_balances(),
                                        asset_id,
                                        acc,
                                        plan,
                                    )
                                    &&& final(assets_module).spec_balances() == plan_apply(
                                        old(assets_module).spec_balances(),
                                        asset_id,
                                        acc,
                                        plan,
                                    )
                                })
                                &&& forall|a: AssetId| #[trigger]
                                    final(assets_module).spec_owner(a) == old(
                                        assets_module,
                                    ).spec_owner(a)
                                &&& forall|a: AssetId| #[trigger]
                                    final(assets_module).spec_issuance(a) == old(
                                        assets_module,
                                    ).spec_issuance(a)
                                &&& sw == Some(
                                    SwapAmount::<Fixed>::WithDesiredInput {
                                        desired_amount_in: (Fixed {
                                            inner: share_value(free, 50) as i64,
                                        }),
                                        min_amount_out: (Fixed { inner: 0 }),
                                    },
                                )
                                &&& forall|d: DEXId| #[trigger]
                                    final(self).spec_reserve(d) == (if d == dex_id {
                                        r1 - free
                                    } else {
                                        old(self).spec_reserve(d)
                                    })
                            }
                        })
                    })),
                    _ => false,
                }
            }),
            final(self).spec_initial_price() == old(self).spec_initial_price(),
            final(self).spec_price_change_step() == old(self).spec_price_change_step(),
            final(self).spec_price_change_rate() == old(self).spec_price_change_rate(),
            final(self).spec_sell_price_coefficient() == old(self).spec_sell_price_coefficient(),
            final(self).spec_base_asset_id() == old(self).spec_base_asset_id(),
            final(self).spec_reserves_acc() == old(self).spec_reserves_acc(),
            final(self).spec_distribution_accounts() == old(self).spec_distribution_accounts(),
    {
        let r0 = self.reserves(dex_id);
        let total_issuance = assets_module.total_issuance(asset_id)?;
        let r_expected = self.sell_tokens_price(assets_module, asset_id, total_issuance)?;
        let mut r1 = r0;
        if r0.inner < r_expected.inner {
            r1 = match r0.checked_add(for_amount.0) {
                Some(v) => v,
                None => {
                    return Err(Error::CalculatePriceFailed);
                },
            };
        }
        let mut swap: Option<SwapAmount<Fixed>> = None;
        if r1.inner > r_expected.inner {
            let policy = DistributionPolicy::standard();
            let diff = match r1.checked_sub(r_expected) {
                Some(v) => v,
                None => {
                    return Err(Error::CalculatePriceFailed);
                },
            };
            let free = match policy.reserves_free_coefficient.checked_mul(diff) {
                Some(v) => v,
                None => {
                    return Err(Error::CalculatePriceFailed);
                },
            };
            let a_xor = match free.checked_mul(policy.val_holders_xor_alloc) {
                Some(v) => v,
                None => {
                    return Err(Error::CalculatePriceFailed);
                },
            };
            let a_projects = match free.checked_mul(policy.projects_other) {
                Some(v) => v,
                None => {
                    return Err(Error::CalculatePriceFailed);
                },
            };
            let a_citizens = match free.checked_mul(policy.projects_sora_citizens) {
                Some(v) => v,
                None => {
                    return Err(Error::CalculatePriceFailed);
                },
            };
            let a_shops = match free.checked_mul(policy.projects_stores_and_shops) {
                Some(v) => v,
                None => {
                    return Err(Error::CalculatePriceFailed);
                },
            };
            let a_parliament = match free.checked_mul(policy.projects_parliament_and_development) {
                Some(v) => v,
                None => {
                    return Err(Error::CalculatePriceFailed);
                },
            };
            let a_buy_back = match free.checked_mul(policy.val_holders_buy_back) {
                Some(v) => v,
                None => {
                    return Err(Error::CalculatePriceFailed);
                },
            };
            let new_r = match r1.checked_sub(free) {
                Some(v) => v,
                None => {
                    return Err(Error::CalculatePriceFailed);
                },
            };
            let reserves_account = match self.reserves_acc().wrapped() {
                Some(acc) => acc,
                None => {
                    return Err(Error::MissingAccount);
                },
            };
            let dist = self.distribution_accounts();
            let mut transfers: Vec<(AccountId, Fixed)> = Vec::new();
            transfers.push((dist.xor_allocation, a_xor));
            transfers.push((dist.projects, a_projects));
            transfers.push((dist.sora_citizens, a_citizens));
            transfers.push((dist.stores_and_shops, a_shops));
            transfers.push((dist.parliament_and_development, a_parliament));
            proof {
                assert(transfers@ =~= distribution_plan(
                    old(self).spec_distribution_accounts(),
                    free.inner as int,
                ));
            }
            assets_module.distribute_from(asset_id, reserves_account, &transfers)?;
            swap = Some(SwapAmount::with_desired_input(a_buy_back, Fixed::zero()));
            r1 = new_r;
        }
        self.set_reserve(dex_id, r1);
        Ok(swap)
    }
}

/// The quoting chain for one swap request against the curve.
///
/// Selling the curve asset for the quote currency prices a desired input
/// with the discounted bulk integral, and a desired output with the
/// inverse integral applied to the output scaled back up by the sell
/// coefficient. Buying the curve asset prices a desired input with the
/// inverse integral (tokens obtainable for the money sent in), and a
/// desired output with the bulk integral (money owed for the tokens
/// asked for).
pub open spec fn quote_chain(
    q: int,
    p_i: int,
    pc_s: int,
    pc_r: int,
    coeff: int,
    selling_base: bool,
    sa: SwapAmount<Fixed>,
) -> Option<int> {
    if selling_base {
        match sa {
            SwapAmount::WithDesiredInput { desired_amount_in: d, .. } => sell_tokens_chain(
                q,
                d.inner as int,
                p_i,
                pc_s,
                pc_r,
                coeff,
            ),
            SwapAmount::WithDesiredOutput { desired_amount_out: d, .. } => match chk_div(
                Some(d.inner as int),
                Some(coeff),
            ) {
                Some(x) => buy_out_tokens_chain(q, x, p_i, pc_s, pc_r),
                None => None,
            },
        }
    } else {
        match sa {
            SwapAmount::WithDesiredInput { desired_amount_in: d, .. } => buy_out_tokens_chain(
                q,
                d.inner as int,
                p_i,
                pc_s,
                pc_r,
            ),
            SwapAmount::WithDesiredOutput { desired_amount_out: d, .. } => buy_in_tokens_chain(
                q,
                d.inner as int,
                p_i,
                pc_s,
                pc_r,
            ),
        }
    }
}

impl Module {
    /// Whether the pool trades the given pair: only the quote currency
    /// against the configured base asset, and only on the Polkaswap
    /// market.
    pub open spec fn spec_can_exchange(
        &self,
        dex_id: DEXId,
        input_asset_id: AssetId,
        output_asset_id: AssetId,
    ) -> bool {
        dex_id == DEXId::Polkaswap && ((input_asset_id == AssetId::USD && output_asset_id
            == self.spec_base_asset_id()) || (output_asset_id == AssetId::USD && input_asset_id
            == self.spec_base_asset_id()))
    }

    /// Check if this pool provides an exchange from the given input
    /// asset to the given output asset.
    pub fn can_exchange(
        &self,
        dex_id: &DEXId,
        input_asset_id: &AssetId,
        output_asset_id: &AssetId,
    ) -> (r: bool)
        ensures
            r == self.spec_can_exchange(*dex_id, *input_asset_id, *output_asset_id),
    {
        let base_asset_id = self.base_asset_id;
        *dex_id == DEXId::Polkaswap && ((*input_asset_id == AssetId::USD && *output_asset_id
            == base_asset_id) || (*output_asset_id == AssetId::USD && *input_asset_id
            == base_asset_id))
    }

    /// Prices one swap request against the curve without touching any
    /// state. The fee of the outcome is always zero: the curve itself
    /// charges none.
    pub fn quote(
        &self,
        assets_module: &assets::Module,
        dex_id: &DEXId,
        input_asset_id: &AssetId,
        output_asset_id: &AssetId,
        swap_amount: SwapAmount<Fixed>,
    ) -> (r: Result<SwapOutcome<Fixed>, Error>)
        ensures
            ({
                let can = self.spec_can_exchange(*dex_id, *input_asset_id, *output_asset_id);
                let exists_a = assets_module.spec_asset_exists(self.spec_base_asset_id());
                let chain = quote_chain(
                    assets_module.spec_issuance(self.spec_base_asset_id()),
                    self.spec_initial_price(),
                    self.spec_price_change_step(),
                    self.spec_price_change_rate(),
                    self.spec_sell_price_coefficient(),
                    *input_asset_id == self.spec_base_asset_id(),
                    swap_amount,
                );
                match r {
                    Ok(o) => can && exists_a && o.fee.inner == 0 && chain == Some(
                        o.amount.inner as int,
                    ),
                    Err(Error::UnsupportedPair) => !can,
                    Err(Error::AssetIdNotExists) => can && !exists_a,
                    Err(Error::CalculatePriceFailed) => can && exists_a && chain is None,
                    _ => false,
                }
            }),
    {
        if !self.can_exchange(dex_id, input_asset_id, output_asset_id) {
            return Err(Error::UnsupportedPair);
        }
        let base_asset_id = self.base_asset_id;
        assets_module.ensure_asset_exists(base_asset_id)?;
        let amount = if *input_asset_id == base_asset_id {
            match swap_amount {
                SwapAmount::WithDesiredInput { desired_amount_in, .. } => self.sell_tokens_price(
                    assets_module,
                    base_asset_id,
                    Balance(desired_amount_in),
                )?,
                SwapAmount::WithDesiredOutput { desired_amount_out, .. } => {
                    let scaled_back = FixedWrapper::from_fixed(desired_amount_out).div(
                        FixedWrapper::from_fixed(self.sell_price_coefficient),
                    );
                    let x = match scaled_back.get() {
                        Some(v) => v,
                        None => {
                            return Err(Error::CalculatePriceFailed);
                        },
                    };
                    self.buy_out_tokens_price(assets_module, base_asset_id, Balance(x))?
                },
            }
        } else {
            match swap_amount {
                SwapAmount::WithDesiredInput { desired_amount_in, .. } => self.buy_out_tokens_price(
                    assets_module,
                    base_asset_id,
                    Balance(desired_amount_in),
                )?,
                SwapAmount::WithDesiredOutput { desired_amount_out, .. } => self
                    .buy_in_tokens_price(assets_module, base_asset_id, Balance(desired_amount_out))?,
            }
        };
        Ok(SwapOutcome::new(amount, Fixed::zero()))
    }

    /// Answers an exchange request by quoting it. The reserve-holding
    /// technical account may not trade with itself; settlement of a
    /// quoted exchange against the ledger is its caller's step.
    pub fn exchange(
        &self,
        assets_module: &assets::Module,
        sender: &AccountId,
        receiver: &AccountId,
        dex_id: &DEXId,
        input_asset_id: &AssetId,
        output_asset_id: &AssetId,
        desired_amount: SwapAmount<Fixed>,
    ) -> (r: Result<SwapOutcome<Fixed>, Error>)
        ensures
            ({
                let can = self.spec_can_exchange(*dex_id, *input_asset_id, *output_asset_id);
                let exists_a = assets_module.spec_asset_exists(self.spec_base_asset_id());
                let chain = quote_chain(
                    assets_module.spec_issuance(self.spec_base_asset_id()),
                    self.spec_initial_price(),
                    self.spec_price_change_step(),
                    self.spec_price_change_rate(),
                    self.spec_sell_price_coefficient(),
                    *input_asset_id == self.spec_base_asset_id(),
                    desired_amount,
                );
                let self_trade = (self.spec_reserves_acc() matches TechAccountId::Wrapped(acc)
                    && *sender == acc && *receiver == acc);
                match r {
                    Ok(o) => (self.spec_reserves_acc() matches TechAccountId::Wrapped(_))
                        && !self_trade && can && exists_a && o.fee.inner == 0 && chain == Some(
                        o.amount.inner as int,
                    ),
                    Err(Error::MissingAccount) => !(self.spec_reserves_acc()
                        matches TechAccountId::Wrapped(_)),
                    Err(Error::Forbidden) => self_trade,
                    Err(Error::UnsupportedPair) => (self.spec_reserves_acc()
                        matches TechAccountId::Wrapped(_)) && !self_trade && !can,
                    Err(Error::AssetIdNotExists) => (self.spec_reserves_acc()
                        matches TechAccountId::Wrapped(_)) && !self_trade && can && !exists_a,
                    Err(Error::CalculatePriceFailed) => (self.spec_reserves_acc()
                        matches TechAccountId::Wrapped(_)) && !self_trade && can && exists_a
                        && chain is None,
                    _ => false,
                }
            }),
    {
        let reserves_account = match self.reserves_acc().wrapped() {
            Some(acc) => acc,
            None => {
                return Err(Error::MissingAccount);
            },
        };
        if *sender == reserves_account && *receiver == reserves_account {
            return Err(Error::Forbidden);
        }
        self.quote(assets_module, dex_id, input_asset_id, output_asset_id, desired_amount)
    }
}

} // verus!
