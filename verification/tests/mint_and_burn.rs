use cep18::address::Address;
use cep18::bridge::{request_bridge_back, set_supported_chains};
use cep18::error::Cep18Error;
use cep18::init::{init, InitArgs};
use cep18::ledger::Ledger;
use cep18::access::change_security;
use cep18::security::MintPolicy;
use cep18::token::{balance_of, burn, mint, total_supply};
use cep18::uint::U256;

const TOKEN_TOTAL_SUPPLY: u64 = 1_000_000_000;
const TOKEN_OWNER_AMOUNT_1: u64 = 1_000_000;
const TOKEN_OWNER_AMOUNT_2: u64 = 2_000_000;

fn default_account() -> Address {
    Address::account([58; 32])
}

fn account_1() -> Address {
    Address::account([1; 32])
}

fn token_owner_address_1() -> Address {
    Address::account([42; 32])
}

fn token_owner_address_2() -> Address {
    Address::contract([42; 32])
}

fn setup_with_args(
    enable_mint_burn: u8,
    admin_list: Option<Vec<Address>>,
    minter_list: Option<Vec<Address>>,
) -> Ledger {
    let mut instance: Option<Ledger> = None;
    let args = InitArgs {
        name: String::from("CasperTest"),
        symbol: String::from("CSPRT"),
        decimals: 100,
        total_supply: U256::from_u64(TOKEN_TOTAL_SUPPLY),
        events_mode: 1,
        enable_mint_burn,
        mint_policy: MintPolicy::AdminOrMinter,
        admin_list,
        minter_list,
        swap_fee: U256::zero(),
        fee_receiver: token_owner_address_1(),
        supported_chains: vec![U256::from_u64(97), U256::from_u64(43113)],
        package_hash: Address::contract([7; 32]),
    };
    assert_eq!(init(&mut instance, default_account(), args), Ok(()));
    instance.unwrap()
}

#[test]
fn test_mint_and_burn_tokens() {
    let mint_amount = U256::one();
    let mut ledger = setup_with_args(
        1,
        Some(vec![default_account()]),
        Some(vec![default_account()]),
    );

    mint(
        &mut ledger,
        default_account(),
        token_owner_address_1(),
        U256::from_u64(TOKEN_OWNER_AMOUNT_1),
        U256::zero(),
        "123".to_string(),
    )
    .unwrap();
    mint(
        &mut ledger,
        default_account(),
        token_owner_address_2(),
        U256::from_u64(TOKEN_OWNER_AMOUNT_2),
        U256::zero(),
        "1234".to_string(),
    )
    .unwrap();

    assert_eq!(
        balance_of(&ledger, default_account()),
        U256::from_u64(TOKEN_TOTAL_SUPPLY),
    );
    assert_eq!(
        balance_of(&ledger, token_owner_address_1()),
        U256::from_u64(TOKEN_OWNER_AMOUNT_1)
    );
    assert_eq!(
        balance_of(&ledger, token_owner_address_2()),
        U256::from_u64(TOKEN_OWNER_AMOUNT_2)
    );
    let total_supply_before_mint = total_supply(&ledger);

    mint(
        &mut ledger,
        default_account(),
        token_owner_address_1(),
        mint_amount,
        U256::zero(),
        "0x703ed6891a882d9d4821367b3ab62ebdebaa87303c6d1642874212e7519a81eb-43113-96945816564243-83-0x6fa6fa85d692f6956064c398c3918a4bff2c1de3-43113".to_string(),
    )
    .unwrap();

    assert_eq!(
        balance_of(&ledger, token_owner_address_1()),
        U256::from_u64(TOKEN_OWNER_AMOUNT_1 + 1),
    );
    assert_eq!(
        balance_of(&ledger, token_owner_address_2()),
        U256::from_u64(TOKEN_OWNER_AMOUNT_2)
    );

    let total_supply_after_mint = total_supply(&ledger);
    assert_eq!(
        total_supply_after_mint,
        U256::from_u64(TOKEN_TOTAL_SUPPLY + TOKEN_OWNER_AMOUNT_1 + TOKEN_OWNER_AMOUNT_2 + 1),
    );
    assert_eq!(
        total_supply_before_mint,
        U256::from_u64(TOKEN_TOTAL_SUPPLY + TOKEN_OWNER_AMOUNT_1 + TOKEN_OWNER_AMOUNT_2),
    );
    let total_supply_before_burn = total_supply_after_mint;

    burn(&mut ledger, default_account(), default_account(), mint_amount).unwrap();

    assert_eq!(
        balance_of(&ledger, default_account()),
        U256::from_u64(999999999),
    );
    assert_eq!(
        balance_of(&ledger, token_owner_address_2()),
        U256::from_u64(TOKEN_OWNER_AMOUNT_2)
    );
    let total_supply_after_burn = total_supply(&ledger);
    assert_ne!(total_supply_after_burn, total_supply_before_burn);
    assert_eq!(total_supply_after_burn, total_supply_before_mint);

    // An external id must be 64 hexadecimal digits: a short one is refused,
    // and nothing is locked.
    assert_eq!(
        request_bridge_back(
            &mut ledger,
            default_account(),
            mint_amount,
            U256::zero(),
            U256::from_u64(97),
            "636363".to_string(),
            "0x000000000".to_string(),
        ),
        Err(Cep18Error::RequestIdIllFormatted)
    );
    assert_eq!(
        balance_of(&ledger, default_account()),
        U256::from_u64(999999999),
    );
    request_bridge_back(
        &mut ledger,
        default_account(),
        mint_amount,
        U256::zero(),
        U256::from_u64(97),
        "63".repeat(32),
        "0x000000000".to_string(),
    )
    .unwrap();
    assert_eq!(
        balance_of(&ledger, default_account()),
        U256::from_u64(999999998),
    );

    set_supported_chains(
        &mut ledger,
        default_account(),
        vec![U256::from_u64(1), U256::from_u64(97)],
        false,
    )
    .unwrap();
}

#[test]
fn test_should_not_mint_above_limits() {
    let mint_amount = U256::max_value();
    let mut ledger = setup_with_args(1, None, None);

    mint(
        &mut ledger,
        default_account(),
        token_owner_address_1(),
        U256::from_u64(TOKEN_OWNER_AMOUNT_1),
        U256::zero(),
        "a".to_string(),
    )
    .unwrap();
    mint(
        &mut ledger,
        default_account(),
        token_owner_address_2(),
        U256::from_u64(TOKEN_OWNER_AMOUNT_2),
        U256::zero(),
        "b".to_string(),
    )
    .unwrap();
    assert_eq!(
        balance_of(&ledger, token_owner_address_1()),
        U256::from_u64(TOKEN_OWNER_AMOUNT_1)
    );

    let error = mint(
        &mut ledger,
        default_account(),
        token_owner_address_1(),
        mint_amount,
        U256::zero(),
        "c".to_string(),
    )
    .expect_err("should have error");
    assert!(matches!(error, Cep18Error::Overflow), "{:?}", error);
    assert_eq!(error.code(), 60003);
}

#[test]
fn test_should_not_burn_above_balance() {
    let mut ledger = setup_with_args(1, None, None);

    let error = burn(
        &mut ledger,
        default_account(),
        default_account(),
        U256::from_u64(TOKEN_TOTAL_SUPPLY + 1),
    )
    .expect_err("should have error");
    assert!(
        matches!(error, Cep18Error::InsufficientBalance),
        "{:?}",
        error
    );
    assert_eq!(error.code(), 60001);
}

#[test]
fn test_should_not_mint_or_burn_with_entrypoint_disabled() {
    let mint_amount = U256::one();
    let mut ledger = setup_with_args(0, None, None);

    let error = mint(
        &mut ledger,
        default_account(),
        token_owner_address_1(),
        mint_amount,
        U256::zero(),
        "a".to_string(),
    )
    .expect_err("should have error");
    assert!(error.code() == 60016, "{:?}", error);

    let error = burn(
        &mut ledger,
        default_account(),
        token_owner_address_1(),
        mint_amount,
    )
    .expect_err("should have error");
    assert!(error.code() == 60016, "{:?}", error);
}

#[test]
fn test_security_no_rights() {
    let mint_amount = U256::one();
    let mut ledger = setup_with_args(1, None, None);

    let error = mint(
        &mut ledger,
        account_1(),
        account_1(),
        mint_amount,
        U256::zero(),
        "a".to_string(),
    )
    .expect_err("should have error");
    assert!(error.code() == 60010, "{:?}", error);

    mint(
        &mut ledger,
        default_account(),
        account_1(),
        mint_amount,
        U256::zero(),
        "a".to_string(),
    )
    .unwrap();

    burn(&mut ledger, account_1(), account_1(), mint_amount).unwrap();
}

#[test]
fn test_security_minter_rights() {
    let mint_amount = U256::one();
    let mut ledger = setup_with_args(1, None, Some(vec![account_1()]));

    mint(
        &mut ledger,
        account_1(),
        token_owner_address_1(),
        mint_amount,
        U256::zero(),
        "a".to_string(),
    )
    .unwrap();
}

#[test]
fn test_security_burner_rights() {
    let mint_amount = U256::one();
    let mut ledger = setup_with_args(1, None, None);

    let error = mint(
        &mut ledger,
        account_1(),
        token_owner_address_1(),
        mint_amount,
        U256::zero(),
        "a".to_string(),
    )
    .expect_err("should have error");
    assert!(error.code() == 60010, "{:?}", error);

    // mint by admin
    mint(
        &mut ledger,
        default_account(),
        default_account(),
        mint_amount,
        U256::zero(),
        "a".to_string(),
    )
    .unwrap();

    // any user can burn
    burn(&mut ledger, default_account(), default_account(), mint_amount).unwrap();
}

#[test]
fn test_change_security() {
    let mint_amount = U256::one();
    let mut ledger = setup_with_args(1, Some(vec![account_1()]), None);

    change_security(
        &mut ledger,
        account_1(),
        None,
        None,
        Some(vec![default_account()]),
    )
    .unwrap();

    let error = mint(
        &mut ledger,
        default_account(),
        token_owner_address_1(),
        mint_amount,
        U256::zero(),
        "a".to_string(),
    )
    .expect_err("should have error");
    assert!(error.code() == 60010, "{:?}", error);
}
