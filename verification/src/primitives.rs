//! Identifiers and plain value types shared by the ledger and the
//! pricing engine.

use vstd::prelude::*;

use crate::fixed::Fixed;

verus! {

/// Fee rate expressed in basis points (hundredths of a percent).
pub type BasisPoints = u16;

/// An account identifier: a plain number standing for a ledger account.
pub type AccountId = u64;

/// A quantity of some asset, carried at the fixed scale.
#[derive(Clone, Copy, PartialEq, Eq, Structural, Debug)]
pub struct Balance(pub Fixed);

/// Every failure the library reports.
#[derive(Clone, Copy, PartialEq, Eq, Structural, Debug)]
pub enum Error {
    /// An arithmetic step of a price calculation overflowed the fixed
    /// range or divided by zero.
    CalculatePriceFailed,
    /// An asset with the given identifier already exists.
    AssetIdAlreadyExists,
    /// No asset with the given identifier exists.
    AssetIdNotExists,
    /// The acting account lacks the permission for the operation.
    Permissions,
    /// A balance is too low, or a balance update leaves the
    /// representable range.
    InsufficientBalance,
    /// The requested item cannot be looked up.
    CannotLookup,
    /// A quote or exchange was requested for an asset pair the curve
    /// does not cover.
    UnsupportedPair,
    /// A required technical account is not configured.
    MissingAccount,
    /// The operation is not allowed for the given accounts.
    Forbidden,
}

/// Information about the state of a particular DEX.
#[derive(Clone, PartialEq, Eq, Debug, Default)]
pub struct DEXInfo<AssetIdT> {
    /// Asset identifier of the base asset in the DEX.
    pub base_asset_id: AssetIdT,
    /// Default value for the fee in basis points.
    pub default_fee: BasisPoints,
    /// Default value for the protocol fee in basis points.
    pub default_protocol_fee: BasisPoints,
}

/// Trading pair data.
#[derive(Clone, Copy, PartialEq, Eq, PartialOrd, Ord, Debug)]
pub struct TradingPair<AssetIdT> {
    /// Base token of the exchange.
    pub base_asset_id: AssetIdT,
    /// Target token of the exchange.
    pub target_asset_id: AssetIdT,
}

/// Asset identifier.
#[derive(Clone, Copy, PartialEq, Eq, Structural, PartialOrd, Ord, Debug, Hash)]
pub enum AssetId {
    XOR,
    DOT,
    KSM,
    USD,
    VAL,
}

impl Default for AssetId {
    /// The base asset is the default.
    fn default() -> (r: Self)
        ensures
            r == AssetId::XOR,
    {
        AssetId::XOR
    }
}

/// DEX identifier.
#[derive(Clone, Copy, PartialEq, Eq, Structural, PartialOrd, Ord, Debug, Hash)]
pub enum DEXId {
    Polkaswap,
}

/// Technical asset identifier: either a wrapped ordinary asset, or a DEX
/// marker standing for liquidity-provision units of a trading pair.
#[derive(Clone, Copy, PartialEq, Eq, PartialOrd, Ord, Debug)]
pub enum TechAssetId<AssetIdT, DexIdT> {
    Wrapped(AssetIdT),
    DexMarker(DexIdT, TradingPair<AssetIdT>),
}

impl<AssetIdT, DexIdT> TechAssetId<AssetIdT, DexIdT> {
    /// Wraps an ordinary asset as a technical asset.
    pub fn from_asset(a: AssetIdT) -> (r: Self)
        ensures
            r == TechAssetId::<AssetIdT, DexIdT>::Wrapped(a),
    {
        TechAssetId::Wrapped(a)
    }

    /// The ordinary asset wrapped by this identifier, where there is one.
    pub fn wrapped(self) -> (r: Option<AssetIdT>)
        ensures
            match self {
                TechAssetId::Wrapped(a) => r == Some(a),
                _ => r is None,
            },
    {
        match self {
            TechAssetId::Wrapped(a) => Some(a),
            _ => None,
        }
    }
}

/// A technical asset is pure unless it wraps an ordinary asset.
impl<AssetIdT, DexIdT> crate::traits::PureOrWrapped<AssetIdT> for TechAssetId<AssetIdT, DexIdT> {
    open spec fn spec_is_pure(&self) -> bool {
        !(self matches TechAssetId::Wrapped(_))
    }

    open spec fn spec_is_wrapped_regular(&self) -> bool {
        self matches TechAssetId::Wrapped(_)
    }

    open spec fn spec_is_wrapped(&self) -> bool {
        self matches TechAssetId::Wrapped(_)
    }

    fn is_pure(&self) -> (r: bool) {
        match self {
            TechAssetId::Wrapped(_) => false,
            _ => true,
        }
    }

    fn is_wrapped_regular(&self) -> (r: bool) {
        match self {
            TechAssetId::Wrapped(_) => true,
            _ => false,
        }
    }

    fn is_wrapped(&self) -> (r: bool) {
        match self {
            TechAssetId::Wrapped(_) => true,
            _ => false,
        }
    }
}

/// Enumeration of all available liquidity sources.
#[derive(Clone, Copy, PartialEq, Eq, Structural, PartialOrd, Ord, Debug)]
pub enum LiquiditySourceType {
    XYKPool,
    MockPool,
}

/// Identification of a liquidity source.
#[derive(Clone, PartialEq, Eq, PartialOrd, Ord, Debug)]
pub struct LiquiditySourceId<DEXIdT, LiquiditySourceIndexT> {
    /// Identification of the target DEX.
    pub dex_id: DEXIdT,
    /// Index value to distinguish a particular liquidity source, e.g. an
    /// index in an array or an enum-type.
    pub liquidity_source_index: LiquiditySourceIndexT,
}

impl<DEXIdT, LiquiditySourceIndexT> LiquiditySourceId<DEXIdT, LiquiditySourceIndexT> {
    /// Bundles a DEX identifier with a liquidity source index.
    pub fn new(dex_id: DEXIdT, liquidity_source_index: LiquiditySourceIndexT) -> (r: Self)
        ensures
            r.dex_id == dex_id,
            r.liquidity_source_index == liquidity_source_index,
    {
        Self { dex_id, liquidity_source_index }
    }
}

/// Code of purpose for a technical account.
#[derive(Clone, Copy, PartialEq, Eq, PartialOrd, Ord, Debug)]
pub enum TechPurpose<AssetIdT> {
    FeeCollector,
    LiquidityKeeper(TradingPair<AssetIdT>),
}

/// Technical account identifier: a pure protocol account described by its
/// purpose, or a wrapped ordinary account, or the wrapped representation
/// of a pure account whose backward mapping is not known.
#[derive(Clone, Copy, PartialEq, Eq, PartialOrd, Ord, Debug)]
pub enum TechAccountId<AccountIdT, AssetIdT, DEXIdT> {
    Pure(DEXIdT, TechPurpose<AssetIdT>),
    Wrapped(AccountIdT),
    WrappedRepr(AccountIdT),
}

impl<AccountIdT, AssetIdT, DEXIdT> TechAccountId<AccountIdT, AssetIdT, DEXIdT> {
    /// Wraps an ordinary account: as a regular wrapped account where the
    /// value marks itself as a representation, and as a bare
    /// representation otherwise.
    pub fn from_account(a: AccountIdT) -> (r: Self) where
        AccountIdT: crate::traits::IsRepresentation,

        ensures
            r == (if a.spec_is_repr() {
                TechAccountId::<AccountIdT, AssetIdT, DEXIdT>::Wrapped(a)
            } else {
                TechAccountId::<AccountIdT, AssetIdT, DEXIdT>::WrappedRepr(a)
            }),
    {
        if a.is_repr() {
            TechAccountId::Wrapped(a)
        } else {
            TechAccountId::WrappedRepr(a)
        }
    }

    /// The ordinary account wrapped by this identifier, where there is
    /// one; pure accounts and bare representations carry none.
    pub fn wrapped(self) -> (r: Option<AccountIdT>)
        ensures
            match self {
                TechAccountId::Wrapped(a) => r == Some(a),
                _ => r is None,
            },
    {
        match self {
            TechAccountId::Wrapped(a) => Some(a),
            _ => None,
        }
    }
}

/// A technical account is pure when described by its purpose; both
/// wrapped forms count as wrapped, but only `Wrapped` is regular.
impl<AccountIdT, AssetIdT, DEXIdT> crate::traits::PureOrWrapped<AccountIdT> for TechAccountId<
    AccountIdT,
    AssetIdT,
    DEXIdT,
> {
    open spec fn spec_is_pure(&self) -> bool {
        self matches TechAccountId::Pure(_, _)
    }

    open spec fn spec_is_wrapped_regular(&self) -> bool {
        self matches TechAccountId::Wrapped(_)
    }

    open spec fn spec_is_wrapped(&self) -> bool {
        !(self matches TechAccountId::Pure(_, _))
    }

    fn is_pure(&self) -> (r: bool) {
        match self {
            TechAccountId::Pure(_, _) => true,
            _ => false,
        }
    }

    fn is_wrapped_regular(&self) -> (r: bool) {
        match self {
            TechAccountId::Wrapped(_) => true,
            _ => false,
        }
    }

    fn is_wrapped(&self) -> (r: bool) {
        match self {
            TechAccountId::Pure(_, _) => false,
            _ => true,
        }
    }
}

/// Intention of a caller: either to trade a fixed input amount, or to
/// obtain a fixed output amount.
#[derive(Clone, PartialEq, Eq, PartialOrd, Ord, Debug)]
pub enum SwapAmount<AmountType> {
    WithDesiredInput { desired_amount_in: AmountType, min_amount_out: AmountType },
    WithDesiredOutput { desired_amount_out: AmountType, max_amount_in: AmountType },
}

impl<T> SwapAmount<T> {
    /// A swap of a fixed input amount with a lower bound on the output.
    pub fn with_desired_input(desired_amount_in: T, min_amount_out: T) -> (r: Self)
        ensures
            r == (SwapAmount::WithDesiredInput { desired_amount_in, min_amount_out }),
    {
        Self::WithDesiredInput { desired_amount_in, min_amount_out }
    }

    /// A swap for a fixed output amount with an upper bound on the input.
    pub fn with_desired_output(desired_amount_out: T, max_amount_in: T) -> (r: Self)
        ensures
            r == (SwapAmount::WithDesiredOutput { desired_amount_out, max_amount_in }),
    {
        Self::WithDesiredOutput { desired_amount_out, max_amount_in }
    }

    /// The principal amount of the swap, whichever side it fixes.
    pub fn amount(self) -> (r: T)
        ensures
            match self {
                SwapAmount::WithDesiredInput { desired_amount_in, .. } => r == desired_amount_in,
                SwapAmount::WithDesiredOutput { desired_amount_out, .. } => r
                    == desired_amount_out,
            },
    {
        match self {
            SwapAmount::WithDesiredInput { desired_amount_in: amount, .. } => amount,
            SwapAmount::WithDesiredOutput { desired_amount_out: amount, .. } => amount,
        }
    }
}

/// Amount of output tokens from either a price request or an actual
/// exchange.
#[derive(Clone, PartialEq, Eq, PartialOrd, Ord, Debug)]
pub struct SwapOutcome<AmountType> {
    /// Actual swap output or input amount, fee included.
    pub amount: AmountType,
    /// Accumulated fee amount, assumed to be in the base asset.
    pub fee: AmountType,
}

impl<AmountType> SwapOutcome<AmountType> {
    /// Bundles a swap amount with its fee.
    pub fn new(amount: AmountType, fee: AmountType) -> (r: Self)
        ensures
            r.amount == amount,
            r.fee == fee,
    {
        Self { amount, fee }
    }
}

} // verus!
