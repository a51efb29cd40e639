use bonding_curve::fixed::Fixed;
use bonding_curve::primitives::{
    AssetId, BasisPoints, DEXId, DEXInfo, LiquiditySourceId, LiquiditySourceType, SwapAmount,
    SwapOutcome, TechAccountId, TechAssetId, TechPurpose, TradingPair,
};
use bonding_curve::traits::{
    EnsureTradingPairExists, IsRepresentation, LiquiditySource, PureOrWrapped,
    SwapRulesValidation, WrappedRepr,
};

type TechAsset = TechAssetId<AssetId, DEXId>;
type TechAccount = TechAccountId<u64, AssetId, DEXId>;

#[test]
fn swap_amounts_carry_their_principal() {
    let input: SwapAmount<Fixed> =
        SwapAmount::with_desired_input(Fixed::from_integer(5), Fixed::from_integer(1));
    let output: SwapAmount<Fixed> =
        SwapAmount::with_desired_output(Fixed::from_integer(7), Fixed::from_integer(9));
    assert_eq!(input.clone().amount(), Fixed::from_integer(5));
    assert_eq!(output.clone().amount(), Fixed::from_integer(7));
    assert_eq!(
        input,
        SwapAmount::WithDesiredInput {
            desired_amount_in: Fixed::from_integer(5),
            min_amount_out: Fixed::from_integer(1),
        }
    );
    assert_eq!(
        output,
        SwapAmount::WithDesiredOutput {
            desired_amount_out: Fixed::from_integer(7),
            max_amount_in: Fixed::from_integer(9),
        }
    );
}

#[test]
fn swap_outcomes_keep_amount_and_fee() {
    let outcome = SwapOutcome::new(Fixed::from_integer(3), Fixed::zero());
    assert_eq!(outcome.amount, Fixed::from_integer(3));
    assert_eq!(outcome.fee, Fixed::zero());
}

#[test]
fn liquidity_source_ids_are_plain_pairs() {
    let id = LiquiditySourceId::new(DEXId::Polkaswap, LiquiditySourceType::XYKPool);
    assert_eq!(id.dex_id, DEXId::Polkaswap);
    assert_eq!(id.liquidity_source_index, LiquiditySourceType::XYKPool);
}

#[test]
fn technical_assets_wrap_ordinary_assets() {
    let wrapped: TechAsset = TechAssetId::from_asset(AssetId::VAL);
    assert_eq!(wrapped.wrapped(), Some(AssetId::VAL));
    assert!(PureOrWrapped::<AssetId>::is_wrapped(&wrapped));
    assert!(PureOrWrapped::<AssetId>::is_wrapped_regular(&wrapped));
    assert!(!PureOrWrapped::<AssetId>::is_pure(&wrapped));
    let marker: TechAsset = TechAssetId::DexMarker(
        DEXId::Polkaswap,
        TradingPair { base_asset_id: AssetId::XOR, target_asset_id: AssetId::USD },
    );
    assert_eq!(marker.wrapped(), None);
    assert!(PureOrWrapped::<AssetId>::is_pure(&marker));
    assert!(!PureOrWrapped::<AssetId>::is_wrapped(&marker));
}

#[test]
fn technical_accounts_tell_pure_from_wrapped() {
    let pure: TechAccount = TechAccountId::Pure(DEXId::Polkaswap, TechPurpose::FeeCollector);
    assert!(PureOrWrapped::<u64>::is_pure(&pure));
    assert!(!PureOrWrapped::<u64>::is_wrapped(&pure));
    assert_eq!(pure.wrapped(), None);
    let wrapped: TechAccount = TechAccountId::Wrapped(9);
    assert!(PureOrWrapped::<u64>::is_wrapped_regular(&wrapped));
    assert_eq!(wrapped.wrapped(), Some(9));
    let repr: TechAccount = WrappedRepr::wrapped_repr(8);
    assert_eq!(repr, TechAccountId::WrappedRepr(8));
    assert!(PureOrWrapped::<u64>::is_wrapped(&repr));
    assert!(!PureOrWrapped::<u64>::is_wrapped_regular(&repr));
    assert_eq!(repr.wrapped(), None);
    // A plain account identifier never marks a representation, so the
    // conversion lands on the bare-representation record.
    assert!(!7u64.is_repr());
    let converted: TechAccount = TechAccountId::from_account(7);
    assert_eq!(converted, TechAccountId::WrappedRepr(7));
}

#[test]
fn bare_values_are_their_own_wrapped_form() {
    let v: u32 = 3;
    assert!(!PureOrWrapped::<u32>::is_pure(&v));
    assert!(PureOrWrapped::<u32>::is_wrapped(&v));
    assert!(PureOrWrapped::<u32>::is_wrapped_regular(&v));
}

#[test]
fn unit_collaborators_refuse_lookups() {
    assert_eq!(
        <() as EnsureTradingPairExists<DEXId, AssetId, _>>::ensure_trading_pair_exists(
            &DEXId::Polkaswap,
            &AssetId::USD
        )
        .unwrap_err(),
        bonding_curve::primitives::Error::CannotLookup
    );
    assert!(!<() as LiquiditySource<DEXId, u64, AssetId, Fixed, _>>::can_exchange(
        &DEXId::Polkaswap,
        &AssetId::USD,
        &AssetId::XOR
    ));
    assert_eq!(
        <() as LiquiditySource<DEXId, u64, AssetId, Fixed, _>>::quote(
            &DEXId::Polkaswap,
            &AssetId::USD,
            &AssetId::XOR,
            SwapAmount::with_desired_input(Fixed::from_integer(1), Fixed::zero()),
        )
        .unwrap_err(),
        bonding_curve::primitives::Error::CannotLookup
    );
    assert!(SwapRulesValidation::<u64, u64>::validate(&(), &1));
    assert!(SwapRulesValidation::<u64, u64>::instant_auto_claim_used(&()));
    assert!(!SwapRulesValidation::<u64, u64>::triggered_auto_claim_used(&()));
    assert!(SwapRulesValidation::<u64, u64>::is_able_to_claim(&()));
}

#[test]
fn dex_info_and_defaults_are_plain_data() {
    let fee: BasisPoints = 30;
    let info = DEXInfo { base_asset_id: AssetId::XOR, default_fee: fee, default_protocol_fee: 0 };
    assert_eq!(info.base_asset_id, AssetId::default());
    assert_eq!(info.default_fee, 30);
}
