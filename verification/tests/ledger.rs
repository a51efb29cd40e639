use bonding_curve::assets::Module;
use bonding_curve::fixed::Fixed;
use bonding_curve::primitives::{AssetId, Balance, Error};

fn amount(i: i64) -> Balance {
    Balance(Fixed::from_integer(i))
}

#[test]
fn register_records_the_owner_once() {
    let mut ledger = Module::new();
    assert_eq!(ledger.asset_owner(AssetId::XOR), None);
    assert!(!ledger.asset_exists(AssetId::XOR));
    ledger.register(1, AssetId::XOR).expect("register");
    assert_eq!(ledger.asset_owner(AssetId::XOR), Some(1));
    assert!(ledger.asset_exists(AssetId::XOR));
    assert!(ledger.is_asset_owner(AssetId::XOR, 1));
    assert!(!ledger.is_asset_owner(AssetId::XOR, 2));
    assert_eq!(
        ledger.register(2, AssetId::XOR).unwrap_err(),
        Error::AssetIdAlreadyExists
    );
}

#[test]
fn unregistered_assets_are_reported() {
    let ledger = Module::new();
    assert_eq!(
        ledger.total_issuance(AssetId::VAL).unwrap_err(),
        Error::AssetIdNotExists
    );
    assert_eq!(
        ledger.total_balance(AssetId::VAL, 1).unwrap_err(),
        Error::AssetIdNotExists
    );
    assert_eq!(
        ledger.ensure_asset_exists(AssetId::VAL).unwrap_err(),
        Error::AssetIdNotExists
    );
}

#[test]
fn mint_raises_balance_and_issuance() {
    let mut ledger = Module::new();
    ledger.register(1, AssetId::XOR).expect("register");
    ledger.mint(AssetId::XOR, 1, amount(100)).expect("mint");
    assert_eq!(
        ledger.total_issuance(AssetId::XOR).unwrap(),
        amount(100)
    );
    assert_eq!(
        ledger.total_balance(AssetId::XOR, 1).unwrap(),
        amount(100)
    );
    assert_eq!(
        ledger.free_balance(AssetId::XOR, 1).unwrap(),
        amount(100)
    );
    assert_eq!(
        ledger.mint(AssetId::XOR, 2, amount(1)).unwrap_err(),
        Error::Permissions
    );
    assert_eq!(
        ledger.mint(AssetId::XOR, 1, amount(-1)).unwrap_err(),
        Error::InsufficientBalance
    );
}

#[test]
fn burn_needs_a_covered_balance() {
    let mut ledger = Module::new();
    ledger.register(1, AssetId::XOR).expect("register");
    ledger.mint(AssetId::XOR, 1, amount(100)).expect("mint");
    ledger.burn(AssetId::XOR, 1, amount(30)).expect("burn");
    assert_eq!(ledger.total_issuance(AssetId::XOR).unwrap(), amount(70));
    assert_eq!(ledger.total_balance(AssetId::XOR, 1).unwrap(), amount(70));
    assert_eq!(
        ledger.burn(AssetId::XOR, 1, amount(71)).unwrap_err(),
        Error::InsufficientBalance
    );
    assert_eq!(
        ledger.burn(AssetId::XOR, 2, amount(1)).unwrap_err(),
        Error::Permissions
    );
}

#[test]
fn transfer_is_for_the_owner_only() {
    let mut ledger = Module::new();
    ledger.register(1, AssetId::XOR).expect("register");
    ledger.mint(AssetId::XOR, 1, amount(100)).expect("mint");
    ledger
        .transfer(AssetId::XOR, 1, 2, amount(40))
        .expect("transfer");
    assert_eq!(ledger.total_balance(AssetId::XOR, 1).unwrap(), amount(60));
    assert_eq!(ledger.total_balance(AssetId::XOR, 2).unwrap(), amount(40));
    assert_eq!(
        ledger.transfer(AssetId::XOR, 2, 3, amount(1)).unwrap_err(),
        Error::Permissions
    );
    assert_eq!(
        ledger.transfer(AssetId::XOR, 1, 2, amount(61)).unwrap_err(),
        Error::InsufficientBalance
    );
    assert_eq!(
        ledger.transfer(AssetId::DOT, 1, 2, amount(1)).unwrap_err(),
        Error::AssetIdNotExists
    );
}

#[test]
fn technical_transfer_checks_balances_only() {
    let mut ledger = Module::new();
    ledger.register(1, AssetId::XOR).expect("register");
    ledger.mint(AssetId::XOR, 1, amount(100)).expect("mint");
    ledger
        .transfer(AssetId::XOR, 1, 2, amount(50))
        .expect("transfer");
    ledger
        .set_transfer_in(AssetId::XOR, 2, 3, amount(20))
        .expect("technical transfer");
    assert_eq!(ledger.total_balance(AssetId::XOR, 2).unwrap(), amount(30));
    assert_eq!(ledger.total_balance(AssetId::XOR, 3).unwrap(), amount(20));
    assert_eq!(
        ledger
            .set_transfer_in(AssetId::XOR, 2, 3, amount(31))
            .unwrap_err(),
        Error::InsufficientBalance
    );
    assert_eq!(
        ledger
            .set_transfer_in(AssetId::XOR, 2, 3, amount(-1))
            .unwrap_err(),
        Error::InsufficientBalance
    );
}

#[test]
fn slash_deducts_at_most_the_balance() {
    let mut ledger = Module::new();
    ledger.register(1, AssetId::XOR).expect("register");
    ledger.mint(AssetId::XOR, 1, amount(100)).expect("mint");
    let gap = ledger.slash(AssetId::XOR, 1, amount(150)).expect("slash");
    assert_eq!(gap, amount(50));
    assert_eq!(ledger.total_balance(AssetId::XOR, 1).unwrap(), amount(0));
    assert_eq!(ledger.total_issuance(AssetId::XOR).unwrap(), amount(0));
    assert_eq!(
        ledger.slash(AssetId::XOR, 2, amount(1)).unwrap_err(),
        Error::Permissions
    );
}

#[test]
fn update_balance_moves_both_ways() {
    let mut ledger = Module::new();
    ledger.register(1, AssetId::XOR).expect("register");
    ledger
        .update_balance(AssetId::XOR, 1, Fixed::from_integer(80))
        .expect("deposit");
    ledger
        .update_balance(AssetId::XOR, 1, Fixed::from_integer(-30))
        .expect("withdraw");
    assert_eq!(ledger.total_balance(AssetId::XOR, 1).unwrap(), amount(50));
    assert_eq!(ledger.total_issuance(AssetId::XOR).unwrap(), amount(50));
    assert_eq!(
        ledger
            .update_balance(AssetId::XOR, 1, Fixed::from_integer(-51))
            .unwrap_err(),
        Error::InsufficientBalance
    );
    assert_eq!(
        ledger
            .update_balance(AssetId::XOR, 2, Fixed::from_integer(1))
            .unwrap_err(),
        Error::Permissions
    );
}

#[test]
fn withdrawal_checks_cover_the_amount() {
    let mut ledger = Module::new();
    ledger.register(1, AssetId::XOR).expect("register");
    ledger.mint(AssetId::XOR, 1, amount(10)).expect("mint");
    ledger
        .ensure_can_withdraw(AssetId::XOR, 1, amount(10))
        .expect("can withdraw");
    assert_eq!(
        ledger
            .ensure_can_withdraw(AssetId::XOR, 1, amount(11))
            .unwrap_err(),
        Error::InsufficientBalance
    );
    assert_eq!(ledger.can_slash(AssetId::XOR, 1, amount(10)).unwrap(), true);
    assert_eq!(
        ledger.can_slash(AssetId::XOR, 1, amount(11)).unwrap(),
        false
    );
}
