//! Collaborator contracts: traits through which the engine, the ledger
//! and their callers talk to each other.

use vstd::prelude::*;

use crate::primitives::{AccountId, Error, SwapAmount, SwapOutcome, TechAccountId};

verus! {

/// Check that a trading pair is registered on a DEX.
pub trait EnsureTradingPairExists<DEXIdT, AssetIdT, ErrorT> {
    fn ensure_trading_pair_exists(dex_id: &DEXIdT, target_asset_id: &AssetIdT) -> Result<
        (),
        ErrorT,
    >;
}

/// The unit registry knows no trading pair.
impl<DEXIdT, AssetIdT> EnsureTradingPairExists<DEXIdT, AssetIdT, Error> for () {
    fn ensure_trading_pair_exists(_dex_id: &DEXIdT, _target_asset_id: &AssetIdT) -> (r: Result<
        (),
        Error,
    >)
        ensures
            r == Err::<(), Error>(Error::CannotLookup),
    {
        Err(Error::CannotLookup)
    }
}

/// Indicates that a particular object can be used to perform exchanges.
pub trait LiquiditySource<TargetId, AccountIdT, AssetIdT, Amount, ErrorT> {
    /// Check if the liquidity source provides an exchange from the given
    /// input asset to the given output asset.
    fn can_exchange(
        target_id: &TargetId,
        input_asset_id: &AssetIdT,
        output_asset_id: &AssetIdT,
    ) -> bool;

    /// Get the spot price of tokens based on the desired amount.
    fn quote(
        target_id: &TargetId,
        input_asset_id: &AssetIdT,
        output_asset_id: &AssetIdT,
        swap_amount: SwapAmount<Amount>,
    ) -> Result<SwapOutcome<Amount>, ErrorT>;

    /// Perform an exchange based on the desired amount.
    fn exchange(
        sender: &AccountIdT,
        receiver: &AccountIdT,
        target_id: &TargetId,
        input_asset_id: &AssetIdT,
        output_asset_id: &AssetIdT,
        swap_amount: SwapAmount<Amount>,
    ) -> Result<SwapOutcome<Amount>, ErrorT>;
}

/// The unit liquidity source provides no exchange at all.
impl<DEXIdT, AccountIdT, AssetIdT, Amount> LiquiditySource<
    DEXIdT,
    AccountIdT,
    AssetIdT,
    Amount,
    Error,
> for () {
    fn can_exchange(
        _target_id: &DEXIdT,
        _input_asset_id: &AssetIdT,
        _output_asset_id: &AssetIdT,
    ) -> bool {
        false
    }

    fn quote(
        _target_id: &DEXIdT,
        _input_asset_id: &AssetIdT,
        _output_asset_id: &AssetIdT,
        _swap_amount: SwapAmount<Amount>,
    ) -> Result<SwapOutcome<Amount>, Error> {
        Err(Error::CannotLookup)
    }

    fn exchange(
        _sender: &AccountIdT,
        _receiver: &AccountIdT,
        _target_id: &DEXIdT,
        _input_asset_id: &AssetIdT,
        _output_asset_id: &AssetIdT,
        _swap_amount: SwapAmount<Amount>,
    ) -> (r: Result<SwapOutcome<Amount>, Error>)
        ensures
            r == Err::<SwapOutcome<Amount>, Error>(Error::CannotLookup),
    {
        Err(Error::CannotLookup)
    }
}

/// A pending atomic swap action: reserve resources, then claim or cancel
/// them.
pub trait SwapAction<SourceAccountId, TargetAccountId> {
    /// Reserve the resources needed for the swap from the given source.
    fn reserve(&self, source: &SourceAccountId) -> Result<(), Error>;

    /// Claim the reserved resources; returns whether the claim succeeds.
    fn claim(&self, source: &SourceAccountId) -> bool;

    /// Weight of executing the operation.
    fn weight(&self) -> u64;

    /// Cancel the resources reserved in `source`.
    fn cancel(&self, source: &SourceAccountId);
}

/// The unit action reserves nothing, claims at once, and weighs nothing.
impl<SourceAccountId, TargetAccountId> SwapAction<SourceAccountId, TargetAccountId> for () {
    fn reserve(&self, _source: &SourceAccountId) -> Result<(), Error> {
        Ok(())
    }

    fn claim(&self, _source: &SourceAccountId) -> bool {
        true
    }

    fn weight(&self) -> u64 {
        0
    }

    fn cancel(&self, _source: &SourceAccountId) {
    }
}

/// Validation rules deciding how a swap action is claimed.
pub trait SwapRulesValidation<SourceAccountId, TargetAccountId>: SwapAction<
    SourceAccountId,
    TargetAccountId,
> {
    /// Validate the action before the next steps are applied by
    /// consensus.
    fn validate(&self, source: &SourceAccountId) -> bool;

    /// Whether an instant automatic claim is performed just after the
    /// reserve.
    fn instant_auto_claim_used(&self) -> bool;

    /// Whether a triggered automatic claim can be used, for example for
    /// crowd-like schemes.
    fn triggered_auto_claim_used(&self) -> bool;

    /// Whether a claim is possible at all, a timeout for example.
    fn is_able_to_claim(&self) -> bool;
}

/// The unit action validates trivially and claims instantly.
impl<SourceAccountId, TargetAccountId> SwapRulesValidation<SourceAccountId, TargetAccountId> for () {
    fn validate(&self, _source: &SourceAccountId) -> bool {
        true
    }

    fn instant_auto_claim_used(&self) -> bool {
        true
    }

    fn triggered_auto_claim_used(&self) -> bool {
        false
    }

    fn is_able_to_claim(&self) -> bool {
        true
    }
}

/// An entity that either wraps a regular value or is pure.
pub trait PureOrWrapped<Regular> {
    /// Whether the entity wraps no data at all.
    spec fn spec_is_pure(&self) -> bool;

    /// Whether the entity is a wrapped regular value.
    spec fn spec_is_wrapped_regular(&self) -> bool;

    /// Whether the entity is wrapped in any way.
    spec fn spec_is_wrapped(&self) -> bool;

    /// No data is wrapped.
    fn is_pure(&self) -> (r: bool)
        ensures
            r == self.spec_is_pure(),
    ;

    /// The entity is a wrapped regular value.
    fn is_wrapped_regular(&self) -> (r: bool)
        ensures
            r == self.spec_is_wrapped_regular(),
    ;

    /// The entity is wrapped.
    fn is_wrapped(&self) -> (r: bool)
        ensures
            r == self.spec_is_wrapped(),
    ;
}

/// `PureOrWrapped` is reflexive: a bare value is its own wrapped regular
/// form.
impl<A> PureOrWrapped<A> for A {
    open spec fn spec_is_pure(&self) -> bool {
        false
    }

    open spec fn spec_is_wrapped_regular(&self) -> bool {
        true
    }

    open spec fn spec_is_wrapped(&self) -> bool {
        true
    }

    fn is_pure(&self) -> (r: bool) {
        false
    }

    fn is_wrapped_regular(&self) -> (r: bool) {
        true
    }

    fn is_wrapped(&self) -> (r: bool) {
        true
    }
}

/// An account identifier that knows whether it is the bare representation
/// of a technical account.
pub trait IsRepresentation {
    /// Whether the value is such a representation.
    spec fn spec_is_repr(&self) -> bool;

    /// Whether the value is such a representation.
    fn is_repr(&self) -> (r: bool)
        ensures
            r == self.spec_is_repr(),
    ;
}

/// A plain numeric account identifier never marks a representation.
impl IsRepresentation for AccountId {
    open spec fn spec_is_repr(&self) -> bool {
        false
    }

    fn is_repr(&self) -> (r: bool) {
        false
    }
}

/// A type that can be built from the known representation of a technical
/// account.
pub trait WrappedRepr<Repr> {
    /// The value wrapping the given representation.
    spec fn spec_wrapped_repr(repr: Repr) -> Self where Self: core::marker::Sized;

    /// Wrap the given representation.
    fn wrapped_repr(repr: Repr) -> (r: Self) where Self: core::marker::Sized
        ensures
            r == Self::spec_wrapped_repr(repr),
    ;
}

impl<AccountIdT, AssetIdT, DEXIdT> WrappedRepr<AccountIdT> for TechAccountId<
    AccountIdT,
    AssetIdT,
    DEXIdT,
> {
    open spec fn spec_wrapped_repr(repr: AccountIdT) -> Self {
        TechAccountId::WrappedRepr(repr)
    }

    fn wrapped_repr(repr: AccountIdT) -> (r: Self) {
        TechAccountId::WrappedRepr(repr)
    }
}

} // verus!
