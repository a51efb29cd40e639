use bonding_curve::assets;
use bonding_curve::bonding_curve_pool::{DistributionAccounts, Module};
use bonding_curve::fixed::Fixed;
use bonding_curve::primitives::{
    AssetId, Balance, DEXId, Error, SwapAmount, SwapOutcome, TechAccountId, TechPurpose,
};

fn accounts() -> DistributionAccounts {
    DistributionAccounts {
        xor_allocation: 11,
        sora_citizens: 12,
        stores_and_shops: 13,
        parliament_and_development: 14,
        projects: 15,
    }
}

fn pool_with(reserves_acc: TechAccountId<u64, AssetId, DEXId>) -> Module {
    Module::new(
        Fixed::from_ratio(993, 10),
        Fixed::from_integer(5000),
        Fixed::from_integer(100),
        Fixed::from_percentage(80),
        AssetId::XOR,
        reserves_acc,
        accounts(),
    )
}

/// A ledger with 450000 tokens issued and the reserve account funded
/// with 100000 of them. The expected reserve for that issuance is
/// 36234000.
fn funded_ledger() -> assets::Module {
    let mut ledger = assets::Module::new();
    ledger.register(1, AssetId::XOR).expect("register");
    ledger
        .mint(AssetId::XOR, 1, Balance(Fixed::from_integer(450_000)))
        .expect("mint");
    ledger
        .set_transfer_in(AssetId::XOR, 1, 42, Balance(Fixed::from_integer(100_000)))
        .expect("fund the reserve account");
    ledger
}

fn balance_of(ledger: &assets::Module, who: u64) -> Fixed {
    ledger.total_balance(AssetId::XOR, who).expect("balance").0
}

#[test]
fn buy_accumulates_when_under_collateralized() {
    let mut ledger = funded_ledger();
    let mut pool = pool_with(TechAccountId::Wrapped(42));
    let swap = pool
        .buy(
            &mut ledger,
            DEXId::Polkaswap,
            AssetId::XOR,
            Balance(Fixed::from_integer(100)),
            7,
        )
        .expect("buy");
    assert_eq!(swap, None);
    assert_eq!(pool.reserves(DEXId::Polkaswap), Fixed::from_integer(100));
    assert_eq!(balance_of(&ledger, 42), Fixed::from_integer(100_000));
    assert_eq!(balance_of(&ledger, 11), Fixed::zero());
}

#[test]
fn buy_distributes_the_freed_surplus() {
    let mut ledger = funded_ledger();
    let mut pool = pool_with(TechAccountId::Wrapped(42));
    // The reserve jumps 200000 past the expected 36234000, so 20% of the
    // excess, 40000, is freed and split.
    let swap = pool
        .buy(
            &mut ledger,
            DEXId::Polkaswap,
            AssetId::XOR,
            Balance(Fixed::from_integer(36_434_000)),
            7,
        )
        .expect("buy");
    assert_eq!(
        swap,
        Some(SwapAmount::with_desired_input(
            Fixed::from_integer(2_000),
            Fixed::zero()
        ))
    );
    assert_eq!(
        pool.reserves(DEXId::Polkaswap),
        Fixed::from_integer(36_394_000)
    );
    let holders = balance_of(&ledger, 11);
    let citizens = balance_of(&ledger, 12);
    let shops = balance_of(&ledger, 13);
    let parliament = balance_of(&ledger, 14);
    let projects = balance_of(&ledger, 15);
    assert_eq!(holders, Fixed::from_integer(18_000));
    assert_eq!(projects, Fixed::from_integer(18_000));
    assert_eq!(citizens, Fixed::from_integer(200));
    assert_eq!(shops, Fixed::from_integer(800));
    assert_eq!(parliament, Fixed::from_integer(1_000));
    assert_eq!(
        balance_of(&ledger, 42),
        Fixed::from_integer(100_000 - 38_000)
    );
    // Conservation: the transfers plus the buy-back equal the freed
    // amount exactly here (every share is a whole number of units).
    let distributed = holders.inner
        + citizens.inner
        + shops.inner
        + parliament.inner
        + projects.inner
        + Fixed::from_integer(2_000).inner;
    assert_eq!(distributed, Fixed::from_integer(40_000).inner);
}

#[test]
fn buy_accumulates_shares_on_a_repeated_beneficiary() {
    let mut ledger = funded_ledger();
    let mut pool = Module::new(
        Fixed::from_ratio(993, 10),
        Fixed::from_integer(5000),
        Fixed::from_integer(100),
        Fixed::from_percentage(80),
        AssetId::XOR,
        TechAccountId::Wrapped(42),
        DistributionAccounts {
            xor_allocation: 11,
            sora_citizens: 11,
            stores_and_shops: 11,
            parliament_and_development: 11,
            projects: 11,
        },
    );
    pool.buy(
        &mut ledger,
        DEXId::Polkaswap,
        AssetId::XOR,
        Balance(Fixed::from_integer(36_434_000)),
        7,
    )
    .expect("buy");
    // All five transfers land on one account: 18000 + 18000 + 200 + 800
    // + 1000.
    assert_eq!(balance_of(&ledger, 11), Fixed::from_integer(38_000));
    assert_eq!(
        balance_of(&ledger, 42),
        Fixed::from_integer(100_000 - 38_000)
    );
}

#[test]
fn buy_without_a_wrapped_reserve_account_fails() {
    let mut ledger = funded_ledger();
    let mut pool = pool_with(TechAccountId::Pure(DEXId::Polkaswap, TechPurpose::FeeCollector));
    assert_eq!(
        pool.buy(
            &mut ledger,
            DEXId::Polkaswap,
            AssetId::XOR,
            Balance(Fixed::from_integer(36_434_000)),
            7,
        )
        .unwrap_err(),
        Error::MissingAccount
    );
    assert_eq!(pool.reserves(DEXId::Polkaswap), Fixed::zero());
    assert_eq!(balance_of(&ledger, 11), Fixed::zero());
}

#[test]
fn buy_with_an_unfunded_reserve_account_fails() {
    let mut ledger = funded_ledger();
    // Account 43 holds nothing, so the distribution is not payable.
    let mut pool = pool_with(TechAccountId::Wrapped(43));
    assert_eq!(
        pool.buy(
            &mut ledger,
            DEXId::Polkaswap,
            AssetId::XOR,
            Balance(Fixed::from_integer(36_434_000)),
            7,
        )
        .unwrap_err(),
        Error::InsufficientBalance
    );
    assert_eq!(pool.reserves(DEXId::Polkaswap), Fixed::zero());
    assert_eq!(balance_of(&ledger, 42), Fixed::from_integer(100_000));
    assert_eq!(balance_of(&ledger, 11), Fixed::zero());
}

#[test]
fn buy_reports_arithmetic_failure() {
    let mut ledger = assets::Module::new();
    ledger.register(1, AssetId::XOR).expect("register");
    ledger
        .mint(AssetId::XOR, 1, Balance(Fixed::max_value()))
        .expect("mint");
    let mut pool = pool_with(TechAccountId::Wrapped(42));
    assert_eq!(
        pool.buy(
            &mut ledger,
            DEXId::Polkaswap,
            AssetId::XOR,
            Balance(Fixed::from_integer(1)),
            7,
        )
        .unwrap_err(),
        Error::CalculatePriceFailed
    );
}

#[test]
fn buy_of_an_unknown_asset_fails() {
    let mut ledger = funded_ledger();
    let mut pool = pool_with(TechAccountId::Wrapped(42));
    assert_eq!(
        pool.buy(
            &mut ledger,
            DEXId::Polkaswap,
            AssetId::DOT,
            Balance(Fixed::from_integer(1)),
            7,
        )
        .unwrap_err(),
        Error::AssetIdNotExists
    );
}

fn quote_fixture() -> (assets::Module, Module) {
    let mut ledger = assets::Module::new();
    ledger.register(1, AssetId::XOR).expect("register");
    ledger
        .mint(AssetId::XOR, 1, Balance(Fixed::from_integer(350_000)))
        .expect("mint");
    (ledger, pool_with(TechAccountId::Wrapped(42)))
}

#[test]
fn quotes_cover_both_directions_and_both_modes() {
    let (ledger, pool) = quote_fixture();
    // Buying the curve asset for a desired output quotes the bulk
    // integral.
    assert_eq!(
        pool.quote(
            &ledger,
            &DEXId::Polkaswap,
            &AssetId::USD,
            &AssetId::XOR,
            SwapAmount::with_desired_output(Fixed::from_integer(100_000), Fixed::max_value()),
        )
        .expect("quote"),
        SwapOutcome::new(Fixed::from_integer(100_10_000), Fixed::zero())
    );
    // Buying it for a desired input quotes the inverse integral.
    assert_eq!(
        pool.quote(
            &ledger,
            &DEXId::Polkaswap,
            &AssetId::USD,
            &AssetId::XOR,
            SwapAmount::with_desired_input(Fixed::from_integer(100_10_000), Fixed::zero()),
        )
        .expect("quote"),
        SwapOutcome::new(Fixed::from_integer(100_000), Fixed::zero())
    );
    // Selling it for a desired input quotes the discounted integral.
    assert_eq!(
        pool.quote(
            &ledger,
            &DEXId::Polkaswap,
            &AssetId::XOR,
            &AssetId::USD,
            SwapAmount::with_desired_input(Fixed::from_integer(100_000), Fixed::zero()),
        )
        .expect("quote"),
        SwapOutcome::new(Fixed::from_integer(80_08_000), Fixed::zero())
    );
    // Selling it for a desired output scales the output back up and
    // inverts the integral.
    assert_eq!(
        pool.quote(
            &ledger,
            &DEXId::Polkaswap,
            &AssetId::XOR,
            &AssetId::USD,
            SwapAmount::with_desired_output(Fixed::from_integer(80_08_000), Fixed::max_value()),
        )
        .expect("quote"),
        SwapOutcome::new(Fixed::from_integer(100_000), Fixed::zero())
    );
}

#[test]
fn unsupported_pairs_are_rejected() {
    let (ledger, pool) = quote_fixture();
    assert_eq!(
        pool.quote(
            &ledger,
            &DEXId::Polkaswap,
            &AssetId::DOT,
            &AssetId::KSM,
            SwapAmount::with_desired_input(Fixed::from_integer(1), Fixed::zero()),
        )
        .unwrap_err(),
        Error::UnsupportedPair
    );
    assert!(!pool.can_exchange(&DEXId::Polkaswap, &AssetId::DOT, &AssetId::KSM));
    assert!(pool.can_exchange(&DEXId::Polkaswap, &AssetId::USD, &AssetId::XOR));
    assert!(pool.can_exchange(&DEXId::Polkaswap, &AssetId::XOR, &AssetId::USD));
}

#[test]
fn exchange_quotes_but_refuses_a_self_trade() {
    let (ledger, pool) = quote_fixture();
    assert_eq!(
        pool.exchange(
            &ledger,
            &42,
            &42,
            &DEXId::Polkaswap,
            &AssetId::XOR,
            &AssetId::USD,
            SwapAmount::with_desired_input(Fixed::from_integer(100_000), Fixed::zero()),
        )
        .unwrap_err(),
        Error::Forbidden
    );
    assert_eq!(
        pool.exchange(
            &ledger,
            &7,
            &8,
            &DEXId::Polkaswap,
            &AssetId::XOR,
            &AssetId::USD,
            SwapAmount::with_desired_input(Fixed::from_integer(100_000), Fixed::zero()),
        )
        .expect("exchange"),
        SwapOutcome::new(Fixed::from_integer(80_08_000), Fixed::zero())
    );
    let unconfigured = pool_with(TechAccountId::Pure(DEXId::Polkaswap, TechPurpose::FeeCollector));
    assert_eq!(
        unconfigured
            .exchange(
                &ledger,
                &7,
                &8,
                &DEXId::Polkaswap,
                &AssetId::XOR,
                &AssetId::USD,
                SwapAmount::with_desired_input(Fixed::from_integer(100_000), Fixed::zero()),
            )
            .unwrap_err(),
        Error::MissingAccount
    );
}
