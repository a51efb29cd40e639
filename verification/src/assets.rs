//! An explicit, in-memory asset ledger.
//!
//! The ledger keeps asset owners, per-asset total issuance and per-account
//! balances as journals: every write appends an entry and a lookup takes
//! the newest entry for its key, so each journal is a map whose history is
//! kept. Registration follows an owner-based permission model: the account
//! that registers an asset is its owner, and minting, burning, slashing
//! and ordinary transfers are allowed to the owner alone. A separate
//! technical transfer ([`Module::set_transfer_in`]) checks balances only;
//! it is the boundary the pricing engine distributes surplus through.

use vstd::map::*;
use vstd::prelude::*;

use crate::fixed::{in_fixed_range, Fixed};
use crate::primitives::{AccountId, AssetId, Balance, Error};

verus! {

/// The owner recorded by the newest entry for `a`, `0` when there is
/// none.
pub open spec fn owner_in(s: Seq<(AssetId, AccountId)>, a: AssetId) -> AccountId
    decreases s.len(),
{
    if s.len() == 0 {
        0
    } else if s.last().0 == a {
        s.last().1
    } else {
        owner_in(s.drop_last(), a)
    }
}

/// The issuance recorded by the newest entry for `a`, `0` when there is
/// none.
pub open spec fn issuance_in(s: Seq<(AssetId, Fixed)>, a: AssetId) -> int
    decreases s.len(),
{
    if s.len() == 0 {
        0
    } else if s.last().0 == a {
        s.last().1.inner as int
    } else {
        issuance_in(s.drop_last(), a)
    }
}

/// The balance recorded by the newest entry for `(a, w)`, `0` when there
/// is none.
pub open spec fn balance_in(s: Seq<(AssetId, AccountId, Fixed)>, a: AssetId, w: AccountId) -> int
    decreases s.len(),
{
    if s.len() == 0 {
        0
    } else if s.last().0 == a && s.last().1 == w {
        s.last().2.inner as int
    } else {
        balance_in(s.drop_last(), a, w)
    }
}

/// The balance journal read as a total map from `(asset, account)` keys.
pub open spec fn balances_of(s: Seq<(AssetId, AccountId, Fixed)>) -> Map<
    (AssetId, AccountId),
    int,
> {
    Map::total(|k: (AssetId, AccountId)| balance_in(s, k.0, k.1))
}

/// Appending an entry to the balance journal updates its map at exactly
/// that key.
pub proof fn lemma_balances_push(s: Seq<(AssetId, AccountId, Fixed)>, a: AssetId, w: AccountId, v: Fixed)
    ensures
        balances_of(s.push((a, w, v))) == balances_of(s).insert((a, w), v.inner as int),
{
    let s2 = s.push((a, w, v));
    assert(s2.drop_last() =~= s);
    assert forall|k: (AssetId, AccountId)|
        balances_of(s2)[k] == balances_of(s).insert((a, w), v.inner as int)[k] by {
        assert(balance_in(s2, k.0, k.1) == if k.0 == a && k.1 == w {
            v.inner as int
        } else {
            balance_in(s, k.0, k.1)
        });
    }
    assert(balances_of(s2) =~= balances_of(s).insert((a, w), v.inner as int));
}

/// Appending an owner entry updates the owner journal at exactly that
/// asset.
pub proof fn lemma_owners_push(s: Seq<(AssetId, AccountId)>, a: AssetId, acc: AccountId)
    ensures
        forall|x: AssetId| #[trigger]
            owner_in(s.push((a, acc)), x) == (if x == a {
                acc
            } else {
                owner_in(s, x)
            }),
{
    let s2 = s.push((a, acc));
    assert(s2.drop_last() =~= s);
    assert forall|x: AssetId| #[trigger]
        owner_in(s2, x) == (if x == a {
            acc
        } else {
            owner_in(s, x)
        }) by {
        assert(s2.last() == (a, acc));
    }
}

/// Appending an issuance entry updates the issuance journal at exactly
/// that asset.
pub proof fn lemma_issuances_push(s: Seq<(AssetId, Fixed)>, a: AssetId, v: Fixed)
    ensures
        forall|x: AssetId| #[trigger]
            issuance_in(s.push((a, v)), x) == (if x == a {
                v.inner as int
            } else {
                issuance_in(s, x)
            }),
{
    let s2 = s.push((a, v));
    assert(s2.drop_last() =~= s);
    assert forall|x: AssetId| #[trigger]
        issuance_in(s2, x) == (if x == a {
            v.inner as int
        } else {
            issuance_in(s, x)
        }) by {
        assert(s2.last() == (a, v));
    }
}

/// Appending a balance entry updates the balance journal at exactly that
/// key.
pub proof fn lemma_balances_push_pointwise(
    s: Seq<(AssetId, AccountId, Fixed)>,
    a: AssetId,
    w: AccountId,
    v: Fixed,
)
    ensures
        forall|a2: AssetId, w2: AccountId| #[trigger]
            balance_in(s.push((a, w, v)), a2, w2) == (if a2 == a && w2 == w {
                v.inner as int
            } else {
                balance_in(s, a2, w2)
            }),
{
    let s2 = s.push((a, w, v));
    assert(s2.drop_last() =~= s);
    assert forall|a2: AssetId, w2: AccountId| #[trigger]
        balance_in(s2, a2, w2) == (if a2 == a && w2 == w {
            v.inner as int
        } else {
            balance_in(s, a2, w2)
        }) by {
        assert(s2.last() == (a, w, v));
    }
}

/// Whether one transfer is payable out of `m`: the amount is not
/// negative, the sender covers it, and the receiver's new balance stays
/// representable.
pub open spec fn spec_xfer_ok(
    m: Map<(AssetId, AccountId), int>,
    a: AssetId,
    from: AccountId,
    to: AccountId,
    amt: int,
) -> bool {
    let m1 = m.insert((a, from), m[(a, from)] - amt);
    0 <= amt && amt <= m[(a, from)] && in_fixed_range(m1[(a, to)] + amt)
}

/// The balances after one transfer: the amount leaves the sender, then
/// reaches the receiver, so a self-transfer changes nothing.
pub open spec fn spec_xfer(
    m: Map<(AssetId, AccountId), int>,
    a: AssetId,
    from: AccountId,
    to: AccountId,
    amt: int,
) -> Map<(AssetId, AccountId), int> {
    let m1 = m.insert((a, from), m[(a, from)] - amt);
    m1.insert((a, to), m1[(a, to)] + amt)
}

/// Whether a whole sequence of transfers out of one sender is payable,
/// each out of the balances left by the previous ones.
pub open spec fn plan_ok(
    m: Map<(AssetId, AccountId), int>,
    a: AssetId,
    from: AccountId,
    ts: Seq<(AccountId, Fixed)>,
) -> bool
    decreases ts.len(),
{
    ts.len() == 0 || (spec_xfer_ok(m, a, from, ts[0].0, ts[0].1.inner as int) && plan_ok(
        spec_xfer(m, a, from, ts[0].0, ts[0].1.inner as int),
        a,
        from,
        ts.drop_first(),
    ))
}

/// The balances after a whole sequence of transfers out of one sender.
pub open spec fn plan_apply(
    m: Map<(AssetId, AccountId), int>,
    a: AssetId,
    from: AccountId,
    ts: Seq<(AccountId, Fixed)>,
) -> Map<(AssetId, AccountId), int>
    decreases ts.len(),
{
    if ts.len() == 0 {
        m
    } else {
        plan_apply(spec_xfer(m, a, from, ts[0].0, ts[0].1.inner as int), a, from, ts.drop_first())
    }
}

/// A plan extended by one transfer is payable exactly when the plan is
/// and the new transfer is payable out of what the plan leaves.
pub proof fn lemma_plan_snoc(
    m: Map<(AssetId, AccountId), int>,
    a: AssetId,
    from: AccountId,
    ts: Seq<(AccountId, Fixed)>,
    t: (AccountId, Fixed),
)
    ensures
        plan_ok(m, a, from, ts.push(t)) == (plan_ok(m, a, from, ts) && spec_xfer_ok(
            plan_apply(m, a, from, ts),
            a,
            from,
            t.0,
            t.1.inner as int,
        )),
        plan_apply(m, a, from, ts.push(t)) == spec_xfer(
            plan_apply(m, a, from, ts),
            a,
            from,
            t.0,
            t.1.inner as int,
        ),
    decreases ts.len(),
{
    let s2 = ts.push(t);
    if ts.len() == 0 {
        assert(s2[0] == t);
        assert(s2.drop_first() =~= Seq::<(AccountId, Fixed)>::empty());
        let mt = spec_xfer(m, a, from, t.0, t.1.inner as int);
        assert(plan_ok(mt, a, from, s2.drop_first()));
        assert(plan_apply(m, a, from, s2) == plan_apply(mt, a, from, s2.drop_first()));
        assert(plan_apply(mt, a, from, s2.drop_first()) == mt);
        assert(plan_ok(m, a, from, ts));
        assert(plan_apply(m, a, from, ts) == m);
    } else {
        assert(s2[0] == ts[0]);
        assert(s2.drop_first() =~= ts.drop_first().push(t));
        let m1 = spec_xfer(m, a, from, ts[0].0, ts[0].1.inner as int);
        lemma_plan_snoc(m1, a, from, ts.drop_first(), t);
        assert(plan_ok(m, a, from, s2) == (spec_xfer_ok(m, a, from, s2[0].0, s2[0].1.inner as int)
            && plan_ok(m1, a, from, s2.drop_first())));
        assert(plan_apply(m, a, from, s2) == plan_apply(m1, a, from, s2.drop_first()));
        assert(plan_ok(m, a, from, ts) == (spec_xfer_ok(m, a, from, ts[0].0, ts[0].1.inner as int)
            && plan_ok(m1, a, from, ts.drop_first())));
        assert(plan_apply(m, a, from, ts) == plan_apply(m1, a, from, ts.drop_first()));
    }
}

/// A plan with an unpayable prefix is itself unpayable.
pub proof fn lemma_plan_extends(
    m: Map<(AssetId, AccountId), int>,
    a: AssetId,
    from: AccountId,
    ts: Seq<(AccountId, Fixed)>,
    j: int,
)
    requires
        0 <= j <= ts.len(),
        !plan_ok(m, a, from, ts.take(j)),
    ensures
        !plan_ok(m, a, from, ts),
    decreases ts.len() - j,
{
    if j == ts.len() {
        assert(ts.take(j) =~= ts);
    } else {
        lemma_plan_snoc(m, a, from, ts.take(j), ts[j]);
        assert(ts.take(j + 1) =~= ts.take(j).push(ts[j]));
        lemma_plan_extends(m, a, from, ts, j + 1);
    }
}

/// An element-by-element copy of a balance journal.
fn copy_journal(v: &Vec<(AssetId, AccountId, Fixed)>) -> (r: Vec<(AssetId, AccountId, Fixed)>)
    ensures
        r@ == v@,
{
    let mut r: Vec<(AssetId, AccountId, Fixed)> = Vec::new();
    let mut i: usize = 0;
    proof {
        assert(r@ =~= v@.take(0));
    }
    while i < v.len()
        invariant
            i <= v.len(),
            r@ == v@.take(i as int),
        decreases v.len() - i,
    {
        r.push(v[i]);
        proof {
            assert(v@.take(i + 1) =~= v@.take(i as int).push(v@[i as int]));
        }
        i = i + 1;
    }
    proof {
        assert(v@.take(v@.len() as int) =~= v@);
    }
    r
}

/// One transfer applied to a raw balance journal: two appended entries on
/// success, no change at all on failure.
fn vec_transfer(
    balances: &mut Vec<(AssetId, AccountId, Fixed)>,
    asset_id: AssetId,
    from: AccountId,
    to: AccountId,
    amount: Fixed,
) -> (ok: bool)
    ensures
        ok == spec_xfer_ok(balances_of(old(balances)@), asset_id, from, to, amount.inner as int),
        ok ==> balances_of(final(balances)@) == spec_xfer(
            balances_of(old(balances)@),
            asset_id,
            from,
            to,
            amount.inner as int,
        ),
        !ok ==> final(balances)@ == old(balances)@,
{
    let ghost m0 = balances_of(old(balances)@);
    if amount.inner < 0 {
        return false;
    }
    let bf = balance_lookup_in(balances, asset_id, from);
    assert(bf.inner as int == m0[(asset_id, from)]);
    if bf.inner < amount.inner {
        return false;
    }
    let nf = Fixed { inner: bf.inner - amount.inner };
    proof {
        lemma_balances_push(balances@, asset_id, from, nf);
    }
    balances.push((asset_id, from, nf));
    let ghost m1 = m0.insert((asset_id, from), m0[(asset_id, from)] - amount.inner as int);
    assert(balances_of(balances@) == m1);
    let bt = balance_lookup_in(balances, asset_id, to);
    assert(bt.inner as int == m1[(asset_id, to)]);
    match bt.checked_add(amount) {
        Some(nt) => {
            proof {
                lemma_balances_push(balances@, asset_id, to, nt);
            }
            balances.push((asset_id, to, nt));
            assert(balances_of(balances@) =~= spec_xfer(
                m0,
                asset_id,
                from,
                to,
                amount.inner as int,
            ));
            true
        },
        None => {
            balances.pop();
            assert(balances@ =~= old(balances)@);
            false
        },
    }
}

/// Whether two ledger states agree on every owner, every issuance and
/// every balance.
pub open spec fn same_ledger(a: &Module, b: &Module) -> bool {
    &&& forall|x: AssetId| #[trigger] a.spec_owner(x) == b.spec_owner(x)
    &&& forall|x: AssetId| #[trigger] a.spec_issuance(x) == b.spec_issuance(x)
    &&& forall|x: AssetId, w: AccountId| #[trigger] a.spec_balance(x, w) == b.spec_balance(x, w)
    &&& a.spec_balances() == b.spec_balances()
}

/// The asset ledger: owners, issuance and balances.
pub struct Module {
    owners: Vec<(AssetId, AccountId)>,
    issuances: Vec<(AssetId, Fixed)>,
    balances: Vec<(AssetId, AccountId, Fixed)>,
}

impl Module {
    /// The owner of `a` as recorded, `0` standing for nobody.
    pub closed spec fn spec_owner(&self, a: AssetId) -> AccountId {
        owner_in(self.owners@, a)
    }

    /// Whether `a` has been registered with a distinguishable owner.
    pub open spec fn spec_asset_exists(&self, a: AssetId) -> bool {
        self.spec_owner(a) != 0
    }

    /// The total issuance of `a`, at the fixed scale.
    pub closed spec fn spec_issuance(&self, a: AssetId) -> int {
        issuance_in(self.issuances@, a)
    }

    /// The balance of `w` in asset `a`, at the fixed scale.
    pub closed spec fn spec_balance(&self, a: AssetId, w: AccountId) -> int {
        balance_in(self.balances@, a, w)
    }

    /// All balances of the ledger, as a total map.
    pub closed spec fn spec_balances(&self) -> Map<(AssetId, AccountId), int> {
        balances_of(self.balances@)
    }

    /// An empty ledger: no owners, no issuance, no balances.
    pub fn new() -> (r: Module)
        ensures
            forall|a: AssetId| r.spec_owner(a) == 0,
            forall|a: AssetId| r.spec_issuance(a) == 0,
            forall|a: AssetId, w: AccountId| r.spec_balance(a, w) == 0,
    {
        Module { owners: Vec::new(), issuances: Vec::new(), balances: Vec::new() }
    }

    /// The newest owner entry for `asset_id`, `0` when there is none.
    fn owner_lookup(&self, asset_id: AssetId) -> (r: AccountId)
        ensures
            r == self.spec_owner(asset_id),
    {
        let s = &self.owners;
        let ghost full = s@;
        let mut i: usize = s.len();
        proof {
            assert(full.take(i as int) =~= full);
        }
        while i > 0
            invariant
                i <= s.len(),
                s@ == full,
                self.owners@ == full,
                owner_in(full, asset_id) == owner_in(full.take(i as int), asset_id),
            decreases i,
        {
            i = i - 1;
            assert(full.take(i + 1).last() == full[i as int]);
            assert(full.take(i + 1).drop_last() =~= full.take(i as int));
            if s[i].0 == asset_id {
                return s[i].1;
            }
        }
        assert(full.take(0) =~= Seq::<(AssetId, AccountId)>::empty());
        0
    }

    /// The newest issuance entry for `asset_id`, zero when there is none.
    fn issuance_lookup(&self, asset_id: AssetId) -> (r: Fixed)
        ensures
            r.inner == self.spec_issuance(asset_id),
    {
        let s = &self.issuances;
        let ghost full = s@;
        let mut i: usize = s.len();
        proof {
            assert(full.take(i as int) =~= full);
        }
        while i > 0
            invariant
                i <= s.len(),
                s@ == full,
                self.issuances@ == full,
                issuance_in(full, asset_id) == issuance_in(full.take(i as int), asset_id),
            decreases i,
        {
            i = i - 1;
            assert(full.take(i + 1).last() == full[i as int]);
            assert(full.take(i + 1).drop_last() =~= full.take(i as int));
            if s[i].0 == asset_id {
                return s[i].1;
            }
        }
        assert(full.take(0) =~= Seq::<(AssetId, Fixed)>::empty());
        Fixed { inner: 0 }
    }

    /// The newest balance entry for `(asset_id, who)`, zero when there is
    /// none.
    fn balance_lookup(&self, asset_id: AssetId, who: AccountId) -> (r: Fixed)
        ensures
            r.inner == self.spec_balance(asset_id, who),
    {
        balance_lookup_in(&self.balances, asset_id, who)
    }
}

/// The newest balance entry for `(asset_id, who)` in a raw journal, zero
/// when there is none.
fn balance_lookup_in(s: &Vec<(AssetId, AccountId, Fixed)>, asset_id: AssetId, who: AccountId) -> (r:
    Fixed)
    ensures
        r.inner == balance_in(s@, asset_id, who),
{
    let ghost full = s@;
    let mut i: usize = s.len();
    proof {
        assert(full.take(i as int) =~= full);
    }
    while i > 0
        invariant
            i <= s.len(),
            s@ == full,
            balance_in(full, asset_id, who) == balance_in(full.take(i as int), asset_id, who),
        decreases i,
    {
        i = i - 1;
        assert(full.take(i + 1).last() == full[i as int]);
        assert(full.take(i + 1).drop_last() =~= full.take(i as int));
        if s[i].0 == asset_id && s[i].1 == who {
            return s[i].2;
        }
    }
    assert(full.take(0) =~= Seq::<(AssetId, AccountId, Fixed)>::empty());
    Fixed { inner: 0 }
}

impl Module {
    /// The balance of an account as an entry of the ledger's balance map.
    pub proof fn lemma_balance_is_map(&self, a: AssetId, w: AccountId)
        ensures
            self.spec_balance(a, w) == self.spec_balances()[(a, w)],
    {
    }

    /// Registers `asset_id` with `author` as its owner; fails when the
    /// asset already has an owner.
    pub fn register(&mut self, author: AccountId, asset_id: AssetId) -> (r: Result<(), Error>)
        ensures
            r is Ok <==> !old(self).spec_asset_exists(asset_id),
            r is Err ==> r == Err::<(), Error>(Error::AssetIdAlreadyExists) && *final(self) == *old(self),
            r is Ok ==> forall|a: AssetId| #[trigger]
                final(self).spec_owner(a) == (if a == asset_id {
                    author
                } else {
                    old(self).spec_owner(a)
                }),
            r is Ok ==> forall|a: AssetId| #[trigger]
                final(self).spec_issuance(a) == old(self).spec_issuance(a),
            r is Ok ==> forall|a: AssetId, w: AccountId| #[trigger]
                final(self).spec_balance(a, w) == old(self).spec_balance(a, w),
    {
        if self.owner_lookup(asset_id) != 0 {
            return Err(Error::AssetIdAlreadyExists);
        }
        proof {
            lemma_owners_push(self.owners@, asset_id, author);
        }
        self.owners.push((asset_id, author));
        Ok(())
    }

    /// The owner of an asset, where one is recorded.
    pub fn asset_owner(&self, asset_id: AssetId) -> (r: Option<AccountId>)
        ensures
            r == (if self.spec_asset_exists(asset_id) {
                Some(self.spec_owner(asset_id))
            } else {
                None::<AccountId>
            }),
    {
        let account_id = self.owner_lookup(asset_id);
        if account_id == 0 {
            None
        } else {
            Some(account_id)
        }
    }

    /// Whether the asset has been registered.
    pub fn asset_exists(&self, asset_id: AssetId) -> (r: bool)
        ensures
            r == self.spec_asset_exists(asset_id),
    {
        self.asset_owner(asset_id).is_some()
    }

    /// Fails with `AssetIdNotExists` for an unregistered asset.
    pub fn ensure_asset_exists(&self, asset_id: AssetId) -> (r: Result<(), Error>)
        ensures
            r is Ok <==> self.spec_asset_exists(asset_id),
            r is Err ==> r == Err::<(), Error>(Error::AssetIdNotExists),
    {
        if !self.asset_exists(asset_id) {
            return Err(Error::AssetIdNotExists);
        }
        Ok(())
    }

    /// Whether `account_id` is the recorded owner of the asset.
    pub fn is_asset_owner(&self, asset_id: AssetId, account_id: AccountId) -> (r: bool)
        ensures
            r == (self.spec_asset_exists(asset_id) && self.spec_owner(asset_id) == account_id),
    {
        match self.asset_owner(asset_id) {
            Some(owner) => owner == account_id,
            None => false,
        }
    }

    /// The total issuance of a registered asset.
    pub fn total_issuance(&self, asset_id: AssetId) -> (r: Result<Balance, Error>)
        ensures
            match r {
                Ok(b) => self.spec_asset_exists(asset_id) && b.0.inner == self.spec_issuance(
                    asset_id,
                ),
                Err(e) => e == Error::AssetIdNotExists && !self.spec_asset_exists(asset_id),
            },
    {
        self.ensure_asset_exists(asset_id)?;
        Ok(Balance(self.issuance_lookup(asset_id)))
    }

    /// The whole balance an account holds of a registered asset.
    pub fn total_balance(&self, asset_id: AssetId, who: AccountId) -> (r: Result<Balance, Error>)
        ensures
            match r {
                Ok(b) => self.spec_asset_exists(asset_id) && b.0.inner == self.spec_balance(
                    asset_id,
                    who,
                ),
                Err(e) => e == Error::AssetIdNotExists && !self.spec_asset_exists(asset_id),
            },
    {
        self.ensure_asset_exists(asset_id)?;
        Ok(Balance(self.balance_lookup(asset_id, who)))
    }

    /// The freely usable balance an account holds of a registered asset;
    /// this ledger locks and reserves nothing, so it coincides with the
    /// whole balance.
    pub fn free_balance(&self, asset_id: AssetId, who: AccountId) -> (r: Result<Balance, Error>)
        ensures
            match r {
                Ok(b) => self.spec_asset_exists(asset_id) && b.0.inner == self.spec_balance(
                    asset_id,
                    who,
                ),
                Err(e) => e == Error::AssetIdNotExists && !self.spec_asset_exists(asset_id),
            },
    {
        self.ensure_asset_exists(asset_id)?;
        Ok(Balance(self.balance_lookup(asset_id, who)))
    }

    /// Fails unless the asset is registered and the account covers the
    /// amount.
    pub fn ensure_can_withdraw(&self, asset_id: AssetId, who: AccountId, amount: Balance) -> (r:
        Result<(), Error>)
        ensures
            r is Ok <==> self.spec_asset_exists(asset_id) && self.spec_balance(asset_id, who)
                >= amount.0.inner,
            r is Err ==> (r == Err::<(), Error>(Error::AssetIdNotExists)
                && !self.spec_asset_exists(asset_id)) || (r == Err::<(), Error>(
                Error::InsufficientBalance,
            ) && self.spec_asset_exists(asset_id)),
    {
        self.ensure_asset_exists(asset_id)?;
        let bal = self.balance_lookup(asset_id, who);
        if bal.inner < amount.0.inner {
            return Err(Error::InsufficientBalance);
        }
        Ok(())
    }

    /// Whether the account's balance of a registered asset covers the
    /// amount.
    pub fn can_slash(&self, asset_id: AssetId, who: AccountId, amount: Balance) -> (r: Result<
        bool,
        Error,
    >)
        ensures
            match r {
                Ok(b) => self.spec_asset_exists(asset_id) && b == (self.spec_balance(
                    asset_id,
                    who,
                ) >= amount.0.inner),
                Err(e) => e == Error::AssetIdNotExists && !self.spec_asset_exists(asset_id),
            },
    {
        self.ensure_asset_exists(asset_id)?;
        let bal = self.balance_lookup(asset_id, who);
        Ok(bal.inner >= amount.0.inner)
    }

    /// Creates `amount` of the asset on `who`'s account. Only the owner
    /// may mint; a negative amount, or one that overflows the issuance or
    /// the balance, is rejected.
    pub fn mint(&mut self, asset_id: AssetId, who: AccountId, amount: Balance) -> (r: Result<
        (),
        Error,
    >)
        ensures
            match r {
                Ok(_) => old(self).spec_asset_exists(asset_id) && old(self).spec_owner(asset_id)
                    == who && amount.0.inner >= 0 && in_fixed_range(
                    old(self).spec_issuance(asset_id) + amount.0.inner,
                ) && in_fixed_range(old(self).spec_balance(asset_id, who) + amount.0.inner),
                Err(Error::Permissions) => *final(self) == *old(self) && !(old(self).spec_asset_exists(
                    asset_id,
                ) && old(self).spec_owner(asset_id) == who),
                Err(Error::InsufficientBalance) => *final(self) == *old(self) && old(
                    self,
                ).spec_asset_exists(asset_id) && old(self).spec_owner(asset_id) == who && !(
                amount.0.inner >= 0 && in_fixed_range(
                    old(self).spec_issuance(asset_id) + amount.0.inner,
                ) && in_fixed_range(old(self).spec_balance(asset_id, who) + amount.0.inner)),
                _ => false,
            },
            r is Ok ==> forall|a: AssetId| #[trigger]
                final(self).spec_owner(a) == old(self).spec_owner(a),
            r is Ok ==> forall|a: AssetId| #[trigger]
                final(self).spec_issuance(a) == (if a == asset_id {
                    old(self).spec_issuance(a) + amount.0.inner
                } else {
                    old(self).spec_issuance(a)
                }),
            r is Ok ==> forall|a: AssetId, w: AccountId| #[trigger]
                final(self).spec_balance(a, w) == (if a == asset_id && w == who {
                    old(self).spec_balance(a, w) + amount.0.inner
                } else {
                    old(self).spec_balance(a, w)
                }),
    {
        if !self.is_asset_owner(asset_id, who) {
            return Err(Error::Permissions);
        }
        if amount.0.inner < 0 {
            return Err(Error::InsufficientBalance);
        }
        let iss = self.issuance_lookup(asset_id);
        let ni = match iss.checked_add(amount.0) {
            Some(v) => v,
            None => {
                return Err(Error::InsufficientBalance);
            },
        };
        let bal = self.balance_lookup(asset_id, who);
        let nb = match bal.checked_add(amount.0) {
            Some(v) => v,
            None => {
                return Err(Error::InsufficientBalance);
            },
        };
        proof {
            lemma_issuances_push(self.issuances@, asset_id, ni);
            lemma_balances_push_pointwise(self.balances@, asset_id, who, nb);
        }
        self.issuances.push((asset_id, ni));
        self.balances.push((asset_id, who, nb));
        Ok(())
    }

    /// Destroys `amount` of the asset from `who`'s account. Only the
    /// owner may burn; a negative amount, an uncovered balance, or an
    /// issuance update leaving the representable range is rejected.
    pub fn burn(&mut self, asset_id: AssetId, who: AccountId, amount: Balance) -> (r: Result<
        (),
        Error,
    >)
        ensures
            match r {
                Ok(_) => old(self).spec_asset_exists(asset_id) && old(self).spec_owner(asset_id)
                    == who && amount.0.inner >= 0 && old(self).spec_balance(asset_id, who)
                    >= amount.0.inner && in_fixed_range(
                    old(self).spec_issuance(asset_id) - amount.0.inner,
                ),
                Err(Error::Permissions) => *final(self) == *old(self) && !(old(self).spec_asset_exists(
                    asset_id,
                ) && old(self).spec_owner(asset_id) == who),
                Err(Error::InsufficientBalance) => *final(self) == *old(self) && old(
                    self,
                ).spec_asset_exists(asset_id) && old(self).spec_owner(asset_id) == who && !(
                amount.0.inner >= 0 && old(self).spec_balance(asset_id, who) >= amount.0.inner
                    && in_fixed_range(old(self).spec_issuance(asset_id) - amount.0.inner)),
                _ => false,
            },
            r is Ok ==> forall|a: AssetId| #[trigger]
                final(self).spec_owner(a) == old(self).spec_owner(a),
            r is Ok ==> forall|a: AssetId| #[trigger]
                final(self).spec_issuance(a) == (if a == asset_id {
                    old(self).spec_issuance(a) - amount.0.inner
                } else {
                    old(self).spec_issuance(a)
                }),
            r is Ok ==> forall|a: AssetId, w: AccountId| #[trigger]
                final(self).spec_balance(a, w) == (if a == asset_id && w == who {
                    old(self).spec_balance(a, w) - amount.0.inner
                } else {
                    old(self).spec_balance(a, w)
                }),
    {
        if !self.is_asset_owner(asset_id, who) {
            return Err(Error::Permissions);
        }
        if amount.0.inner < 0 {
            return Err(Error::InsufficientBalance);
        }
        let bal = self.balance_lookup(asset_id, who);
        if bal.inner < amount.0.inner {
            return Err(Error::InsufficientBalance);
        }
        let nb = Fixed { inner: bal.inner - amount.0.inner };
        let iss = self.issuance_lookup(asset_id);
        let ni = match iss.checked_sub(amount.0) {
            Some(v) => v,
            None => {
                return Err(Error::InsufficientBalance);
            },
        };
        proof {
            lemma_issuances_push(self.issuances@, asset_id, ni);
            lemma_balances_push_pointwise(self.balances@, asset_id, who, nb);
        }
        self.issuances.push((asset_id, ni));
        self.balances.push((asset_id, who, nb));
        Ok(())
    }

    /// Deducts up to `amount` from `who`'s balance of a registered
    /// asset, never below zero, and reduces the issuance by the same
    /// deduction. Only the owner may be slashed under the owner-based
    /// permission model. Returns the part of `amount` that could not be
    /// deducted.
    pub fn slash(&mut self, asset_id: AssetId, who: AccountId, amount: Balance) -> (r: Result<
        Balance,
        Error,
    >)
        ensures
            match r {
                Ok(gap) => {
                    let bal = old(self).spec_balance(asset_id, who);
                    let cut = if bal >= amount.0.inner {
                        amount.0.inner as int
                    } else if bal > 0 {
                        bal
                    } else {
                        0
                    };
                    &&& old(self).spec_asset_exists(asset_id)
                    &&& old(self).spec_owner(asset_id) == who
                    &&& amount.0.inner >= 0
                    &&& in_fixed_range(old(self).spec_issuance(asset_id) - cut)
                    &&& gap.0.inner == amount.0.inner - cut
                    &&& forall|a: AssetId| #[trigger]
                        final(self).spec_owner(a) == old(self).spec_owner(a)
                    &&& forall|a: AssetId| #[trigger]
                        final(self).spec_issuance(a) == (if a == asset_id {
                            old(self).spec_issuance(a) - cut
                        } else {
                            old(self).spec_issuance(a)
                        })
                    &&& forall|a: AssetId, w: AccountId| #[trigger]
                        final(self).spec_balance(a, w) == (if a == asset_id && w == who {
                            old(self).spec_balance(a, w) - cut
                        } else {
                            old(self).spec_balance(a, w)
                        })
                },
                Err(Error::AssetIdNotExists) => *final(self) == *old(self) && !old(
                    self,
                ).spec_asset_exists(asset_id),
                Err(Error::Permissions) => *final(self) == *old(self) && old(
                    self,
                ).spec_asset_exists(asset_id) && old(self).spec_owner(asset_id) != who,
                Err(Error::InsufficientBalance) => {
                    let bal = old(self).spec_balance(asset_id, who);
                    let cut = if bal >= amount.0.inner {
                        amount.0.inner as int
                    } else if bal > 0 {
                        bal
                    } else {
                        0
                    };
                    &&& *final(self) == *old(self)
                    &&& old(self).spec_asset_exists(asset_id)
                    &&& old(self).spec_owner(asset_id) == who
                    &&& !(amount.0.inner >= 0 && in_fixed_range(
                        old(self).spec_issuance(asset_id) - cut,
                    ))
                },
                _ => false,
            },
    {
        self.ensure_asset_exists(asset_id)?;
        if !self.is_asset_owner(asset_id, who) {
            return Err(Error::Permissions);
        }
        if amount.0.inner < 0 {
            return Err(Error::InsufficientBalance);
        }
        let bal = self.balance_lookup(asset_id, who);
        let cut: i64 = if bal.inner >= amount.0.inner {
            amount.0.inner
        } else if bal.inner > 0 {
            bal.inner
        } else {
            0
        };
        let nb = Fixed { inner: bal.inner - cut };
        let iss = self.issuance_lookup(asset_id);
        let ni = match iss.checked_sub(Fixed { inner: cut }) {
            Some(v) => v,
            None => {
                return Err(Error::InsufficientBalance);
            },
        };
        proof {
            lemma_issuances_push(self.issuances@, asset_id, ni);
            lemma_balances_push_pointwise(self.balances@, asset_id, who, nb);
        }
        self.issuances.push((asset_id, ni));
        self.balances.push((asset_id, who, nb));
        Ok(Balance(Fixed { inner: amount.0.inner - cut }))
    }

    /// Adjusts `who`'s balance and the issuance by a signed delta:
    /// minting when it is not negative, burning otherwise. Only the owner
    /// may do either, and the resulting balance may not go negative.
    pub fn update_balance(&mut self, asset_id: AssetId, who: AccountId, by_amount: Fixed) -> (r:
        Result<(), Error>)
        ensures
            match r {
                Ok(_) => old(self).spec_asset_exists(asset_id) && old(self).spec_owner(asset_id)
                    == who && in_fixed_range(
                    old(self).spec_balance(asset_id, who) + by_amount.inner,
                ) && old(self).spec_balance(asset_id, who) + by_amount.inner >= 0
                    && in_fixed_range(old(self).spec_issuance(asset_id) + by_amount.inner),
                Err(Error::Permissions) => *final(self) == *old(self) && !(old(
                    self,
                ).spec_asset_exists(asset_id) && old(self).spec_owner(asset_id) == who),
                Err(Error::InsufficientBalance) => *final(self) == *old(self) && old(
                    self,
                ).spec_asset_exists(asset_id) && old(self).spec_owner(asset_id) == who && !(
                in_fixed_range(old(self).spec_balance(asset_id, who) + by_amount.inner) && old(
                    self,
                ).spec_balance(asset_id, who) + by_amount.inner >= 0 && in_fixed_range(
                    old(self).spec_issuance(asset_id) + by_amount.inner,
                )),
                _ => false,
            },
            r is Ok ==> forall|a: AssetId| #[trigger]
                final(self).spec_owner(a) == old(self).spec_owner(a),
            r is Ok ==> forall|a: AssetId| #[trigger]
                final(self).spec_issuance(a) == (if a == asset_id {
                    old(self).spec_issuance(a) + by_amount.inner
                } else {
                    old(self).spec_issuance(a)
                }),
            r is Ok ==> forall|a: AssetId, w: AccountId| #[trigger]
                final(self).spec_balance(a, w) == (if a == asset_id && w == who {
                    old(self).spec_balance(a, w) + by_amount.inner
                } else {
                    old(self).spec_balance(a, w)
                }),
    {
        if !self.is_asset_owner(asset_id, who) {
            return Err(Error::Permissions);
        }
        let bal = self.balance_lookup(asset_id, who);
        let nb = match bal.checked_add(by_amount) {
            Some(v) => v,
            None => {
                return Err(Error::InsufficientBalance);
            },
        };
        if nb.inner < 0 {
            return Err(Error::InsufficientBalance);
        }
        let iss = self.issuance_lookup(asset_id);
        let ni = match iss.checked_add(by_amount) {
            Some(v) => v,
            None => {
                return Err(Error::InsufficientBalance);
            },
        };
        proof {
            lemma_issuances_push(self.issuances@, asset_id, ni);
            lemma_balances_push_pointwise(self.balances@, asset_id, who, nb);
        }
        self.issuances.push((asset_id, ni));
        self.balances.push((asset_id, who, nb));
        Ok(())
    }

    /// Moves `amount` between two accounts. The asset must exist, the
    /// sender must be its owner (the owner-based stand-in for a transfer
    /// permission), and the transfer must be payable.
    pub fn transfer(
        &mut self,
        asset_id: AssetId,
        from: AccountId,
        to: AccountId,
        amount: Balance,
    ) -> (r: Result<(), Error>)
        ensures
            match r {
                Ok(_) => old(self).spec_asset_exists(asset_id) && old(self).spec_owner(asset_id)
                    == from && spec_xfer_ok(
                    old(self).spec_balances(),
                    asset_id,
                    from,
                    to,
                    amount.0.inner as int,
                ),
                Err(Error::AssetIdNotExists) => same_ledger(final(self), old(self)) && !old(
                    self,
                ).spec_asset_exists(asset_id),
                Err(Error::Permissions) => same_ledger(final(self), old(self)) && old(
                    self,
                ).spec_asset_exists(asset_id) && old(self).spec_owner(asset_id) != from,
                Err(Error::InsufficientBalance) => same_ledger(final(self), old(self)) && old(
                    self,
                ).spec_asset_exists(asset_id) && old(self).spec_owner(asset_id) == from
                    && !spec_xfer_ok(
                    old(self).spec_balances(),
                    asset_id,
                    from,
                    to,
                    amount.0.inner as int,
                ),
                _ => false,
            },
            r is Ok ==> final(self).spec_balances() == spec_xfer(
                old(self).spec_balances(),
                asset_id,
                from,
                to,
                amount.0.inner as int,
            ),
            r is Ok ==> forall|a: AssetId| #[trigger]
                final(self).spec_owner(a) == old(self).spec_owner(a),
            r is Ok ==> forall|a: AssetId| #[trigger]
                final(self).spec_issuance(a) == old(self).spec_issuance(a),
    {
        self.ensure_asset_exists(asset_id)?;
        if !self.is_asset_owner(asset_id, from) {
            return Err(Error::Permissions);
        }
        if vec_transfer(&mut self.balances, asset_id, from, to, amount.0) {
            Ok(())
        } else {
            Err(Error::InsufficientBalance)
        }
    }

    /// Moves `amount` between two accounts with no permission check: the
    /// technical transfer the pricing engine distributes surplus through.
    /// Only payability is checked.
    pub fn set_transfer_in(
        &mut self,
        asset_id: AssetId,
        from: AccountId,
        to: AccountId,
        amount: Balance,
    ) -> (r: Result<(), Error>)
        ensures
            r is Ok <==> spec_xfer_ok(
                old(self).spec_balances(),
                asset_id,
                from,
                to,
                amount.0.inner as int,
            ),
            r is Err ==> r == Err::<(), Error>(Error::InsufficientBalance) && same_ledger(
                final(self),
                old(self),
            ),
            r is Ok ==> final(self).spec_balances() == spec_xfer(
                old(self).spec_balances(),
                asset_id,
                from,
                to,
                amount.0.inner as int,
            ),
            r is Ok ==> forall|a: AssetId| #[trigger]
                final(self).spec_owner(a) == old(self).spec_owner(a),
            r is Ok ==> forall|a: AssetId| #[trigger]
                final(self).spec_issuance(a) == old(self).spec_issuance(a),
    {
        if vec_transfer(&mut self.balances, asset_id, from, to, amount.0) {
            Ok(())
        } else {
            Err(Error::InsufficientBalance)
        }
    }

    /// Applies a whole sequence of transfers out of one sender, all or
    /// nothing: when any of them is not payable out of the balances the
    /// previous ones leave, the ledger is left untouched.
    pub fn distribute_from(
        &mut self,
        asset_id: AssetId,
        from: AccountId,
        transfers: &Vec<(AccountId, Fixed)>,
    ) -> (r: Result<(), Error>)
        ensures
            r is Ok <==> plan_ok(old(self).spec_balances(), asset_id, from, transfers@),
            r is Err ==> r == Err::<(), Error>(Error::InsufficientBalance) && *final(self) == *old(self),
            r is Ok ==> final(self).spec_balances() == plan_apply(
                old(self).spec_balances(),
                asset_id,
                from,
                transfers@,
            ),
            r is Ok ==> forall|a: AssetId| #[trigger]
                final(self).spec_owner(a) == old(self).spec_owner(a),
            r is Ok ==> forall|a: AssetId| #[trigger]
                final(self).spec_issuance(a) == old(self).spec_issuance(a),
    {
        let ghost m0 = self.spec_balances();
        let mut scratch: Vec<(AssetId, AccountId, Fixed)> = copy_journal(&self.balances);
        let mut i: usize = 0;
        proof {
            assert(transfers@.take(0) =~= Seq::<(AccountId, Fixed)>::empty());
        }
        while i < transfers.len()
            invariant
                i <= transfers.len(),
                plan_ok(m0, asset_id, from, transfers@.take(i as int)),
                balances_of(scratch@) == plan_apply(m0, asset_id, from, transfers@.take(i as int)),
                m0 == balances_of(self.balances@),
                self.owners@ == old(self).owners@,
                self.issuances@ == old(self).issuances@,
                self.balances@ == old(self).balances@,
            decreases transfers.len() - i,
        {
            let t = transfers[i];
            let ok = vec_transfer(&mut scratch, asset_id, from, t.0, t.1);
            proof {
                lemma_plan_snoc(m0, asset_id, from, transfers@.take(i as int), transfers@[i as int]);
                assert(transfers@.take(i + 1) =~= transfers@.take(i as int).push(
                    transfers@[i as int],
                ));
            }
            if !ok {
                proof {
                    lemma_plan_extends(m0, asset_id, from, transfers@, i + 1);
                }
                return Err(Error::InsufficientBalance);
            }
            i = i + 1;
        }
        proof {
            assert(transfers@.take(transfers@.len() as int) =~= transfers@);
        }
        self.balances = scratch;
        Ok(())
    }
}

} // verus!
