use cep18::address::Address;
use cep18::bridge::{read_request_info, request_bridge_back};
use cep18::hextext::{make_dictionary_item_key_for_account, make_dictionary_item_key_for_contract};
use cep18::bridge::check_request_id;
use cep18::init::{init, InitArgs};
use cep18::ledger::{Ledger, RequestBridgeBackInfo};
use cep18::redeem::{check_redeem_support, set_redeen_tokens};
use cep18::security::{EventsMode, MintPolicy, SecurityBadge};
use cep18::snapshot::{into_parts, restore, LedgerParts};
use cep18::store::{mint_id_used, read_request_map};
use cep18::table::Table;
use cep18::token::{allowance, approve, balance_of, mint, total_supply, transfer};
use cep18::uint::U256;

fn admin() -> Address {
    Address::account([1; 32])
}

fn minter() -> Address {
    Address::account([2; 32])
}

fn alice() -> Address {
    Address::account([3; 32])
}

fn package() -> Address {
    Address::contract([9; 32])
}

fn u(x: u64) -> U256 {
    U256::from_u64(x)
}

fn busy_ledger() -> Ledger {
    let mut instance: Option<Ledger> = None;
    let args = InitArgs {
        name: String::from("Token"),
        symbol: String::from("TKN"),
        decimals: 9,
        total_supply: u(1_000),
        events_mode: 1,
        enable_mint_burn: 1,
        mint_policy: MintPolicy::MinterOnly,
        admin_list: None,
        minter_list: Some(vec![minter()]),
        swap_fee: u(2),
        fee_receiver: Address::account([5; 32]),
        supported_chains: vec![u(97)],
        package_hash: package(),
    };
    assert_eq!(init(&mut instance, admin(), args), Ok(()));
    let mut ledger = instance.unwrap();
    transfer(&mut ledger, admin(), alice(), u(400)).unwrap();
    approve(&mut ledger, alice(), admin(), u(33)).unwrap();
    mint(&mut ledger, minter(), alice(), u(10), u(2), "m".to_string()).unwrap();
    request_bridge_back(
        &mut ledger,
        alice(),
        u(100),
        u(2),
        u(97),
        "0f".repeat(32),
        "0xdest".to_string(),
    )
    .unwrap();
    set_redeen_tokens(&mut ledger, admin(), vec![Address::contract([7; 32])], true).unwrap();
    ledger
}

fn empty_parts() -> LedgerParts {
    LedgerParts {
        name: String::new(),
        symbol: String::new(),
        decimals: 0,
        package: package(),
        events_mode: EventsMode::NoEvents,
        mint_burn_enabled: false,
        mint_policy: MintPolicy::MinterOnly,
        total_supply: U256::zero(),
        holders: vec![],
        balances: vec![],
        allowance_pairs: vec![],
        allowances: vec![],
        badge_holders: vec![],
        badges: vec![],
        swap_fee: U256::zero(),
        fee_receiver: admin(),
        mint_ids: vec![],
        request_ids: vec![],
        request_indices: vec![],
        requests: vec![],
        chains: vec![],
        chain_flags: vec![],
        tokens: vec![],
        token_flags: vec![],
    }
}

fn request_at(index: u64) -> RequestBridgeBackInfo {
    RequestBridgeBackInfo {
        owner: alice(),
        amount: u(1),
        fee: u(0),
        index: u(index),
        receiver_address: String::new(),
        to_chainid: u(97),
        id: String::new(),
    }
}

#[test]
fn a_ledger_taken_apart_and_put_together_is_as_it_was() {
    let parts = into_parts(busy_ledger());
    assert_eq!(parts.name, "Token");
    assert_eq!(parts.total_supply, u(1_010));
    assert_eq!(parts.holders.len(), parts.balances.len());
    assert_eq!(parts.mint_ids, vec!["m".to_string()]);
    assert_eq!(parts.requests.len(), 1);
    let ledger = restore(parts).unwrap();
    assert_eq!(total_supply(&ledger), u(1_010));
    assert_eq!(balance_of(&ledger, admin()), u(600));
    assert_eq!(balance_of(&ledger, alice()), u(308));
    assert_eq!(balance_of(&ledger, package()), u(100));
    assert_eq!(balance_of(&ledger, Address::account([5; 32])), u(2));
    assert_eq!(allowance(&ledger, alice(), admin()), u(33));
    assert!(mint_id_used(&ledger, &"m".to_string()));
    assert_eq!(read_request_map(&ledger, &"0f".repeat(32)), Some(u(0)));
    assert_eq!(read_request_info(&ledger, u(0)).unwrap().amount, u(100));
    assert_eq!(check_redeem_support(&ledger, Address::contract([7; 32])), Ok(()));
    let mut ledger = ledger;
    mint(&mut ledger, minter(), alice(), u(10), u(2), "n".to_string()).unwrap();
    assert_eq!(total_supply(&ledger), u(1_020));
}

#[test]
fn parts_that_make_up_no_ledger_are_turned_down() {
    assert!(restore(empty_parts()).is_some());

    let mut unbalanced = empty_parts();
    unbalanced.total_supply = u(1);
    assert!(restore(unbalanced).is_none());

    let mut balanced = empty_parts();
    balanced.total_supply = u(5);
    balanced.holders = vec![admin(), alice()];
    balanced.balances = vec![u(2), u(3)];
    let ledger = restore(balanced).unwrap();
    assert_eq!(balance_of(&ledger, alice()), u(3));

    let mut overflowing = empty_parts();
    overflowing.total_supply = u(0);
    overflowing.holders = vec![admin(), alice()];
    overflowing.balances = vec![U256::max_value(), u(1)];
    assert!(restore(overflowing).is_none());

    let mut twice = empty_parts();
    twice.total_supply = u(5);
    twice.holders = vec![alice(), alice()];
    twice.balances = vec![u(2), u(3)];
    assert!(restore(twice).is_none());

    let mut short = empty_parts();
    short.holders = vec![alice()];
    assert!(restore(short).is_none());

    let mut badge_twice = empty_parts();
    badge_twice.badge_holders = vec![alice(), alice()];
    badge_twice.badges = vec![SecurityBadge::Admin, SecurityBadge::Minter];
    assert!(restore(badge_twice).is_none());

    let mut mint_id_twice = empty_parts();
    mint_id_twice.mint_ids = vec!["a".to_string(), "a".to_string()];
    assert!(restore(mint_id_twice).is_none());

    let mut chain_twice = empty_parts();
    chain_twice.chains = vec![u(1), u(1)];
    chain_twice.chain_flags = vec![true, false];
    assert!(restore(chain_twice).is_none());

    let mut misplaced = empty_parts();
    misplaced.requests = vec![request_at(1)];
    assert!(restore(misplaced).is_none());

    let mut placed = empty_parts();
    placed.requests = vec![request_at(0), request_at(1)];
    assert!(restore(placed).is_some());
}

#[test]
fn a_table_is_made_of_distinct_keys_each_with_a_value() {
    let table: Table<Address, U256> =
        Table::from_parts(vec![admin(), alice()], vec![u(1), u(2)]).unwrap();
    assert_eq!(table.len(), 2);
    assert_eq!(table.get(&alice()), Some(&u(2)));
    assert_eq!(table.get(&minter()), None);
    assert_eq!(table.position(&alice()), Some(1));
    assert_eq!(table.position(&minter()), None);
    assert_eq!(*table.key_at(0), admin());
    assert_eq!(*table.value_at(0), u(1));
    assert_eq!(
        table.into_parts(),
        (vec![admin(), alice()], vec![u(1), u(2)])
    );
    assert!(Table::<Address, U256>::from_parts(vec![admin()], vec![]).is_none());
    assert!(
        Table::<Address, U256>::from_parts(vec![admin(), alice(), admin()], vec![u(1), u(2), u(3)])
            .is_none()
    );
    let mut table: Table<String, U256> = Table::new();
    table.set("a".to_string(), u(1));
    table.set("b".to_string(), u(2));
    table.set("a".to_string(), u(3));
    assert_eq!(
        table.into_parts(),
        (vec!["a".to_string(), "b".to_string()], vec![u(3), u(2)])
    );
}

#[test]
fn storage_keys_spell_out_the_hash_in_lower_case_digits() {
    let mut bytes = [0u8; 32];
    for (i, byte) in bytes.iter_mut().enumerate() {
        *byte = (i as u8) * 8 + 0x0a;
    }
    bytes[31] = 0xff;
    let key = make_dictionary_item_key_for_account(Address::account(bytes)).unwrap();
    assert_eq!(
        key,
        "0a121a222a323a424a525a626a727a828a929aa2aab2bac2cad2dae2eaf2faff"
    );
    assert_eq!(key.len(), 64);
    assert!(check_request_id(&key));
    assert_eq!(
        make_dictionary_item_key_for_account(Address::account([0xab; 32])),
        Some("ab".repeat(32))
    );
    assert_eq!(
        make_dictionary_item_key_for_account(Address::contract([0xab; 32])),
        None
    );
    assert_eq!(
        make_dictionary_item_key_for_contract(Address::contract([0x01; 32])),
        Some("01".repeat(32))
    );
    assert_eq!(
        make_dictionary_item_key_for_contract(Address::account([0x01; 32])),
        None
    );
}
