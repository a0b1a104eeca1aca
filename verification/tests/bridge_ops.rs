use cep18::access::{change_sec_badge, change_security, sec_check};
use cep18::address::Address;
use cep18::bridge::{
    check_request_id, check_supported_chain, read_request_info, request_bridge_back,
    set_fee_request_bridge_back, set_supported_chains,
};
use cep18::error::Cep18Error;
use cep18::events::{
    Burn, ChangeSecurity, Event, RegisterBridgeBack, RequestBridgeBack, SetFeeBridgeBack, Transfer,
};
use cep18::init::{init, InitArgs};
use cep18::ledger::Ledger;
use cep18::security::{MintPolicy, SecurityBadge};
use cep18::store::{
    get_self_key, read_fee_receiver, read_request_id, read_request_map, read_swap_fee,
    save_fee_receiver, save_request_map, save_swap_fee,
};
use cep18::table::Table;
use cep18::token::{balance_of, burn, change_swap_fee, mint, total_supply, transfer};
use cep18::uint::U256;

fn admin() -> Address {
    Address::account([1; 32])
}

fn minter() -> Address {
    Address::account([2; 32])
}

fn alice() -> Address {
    Address::account([3; 32])
}

fn bob() -> Address {
    Address::account([4; 32])
}

fn treasury() -> Address {
    Address::account([5; 32])
}

fn package() -> Address {
    Address::contract([9; 32])
}

fn u(x: u64) -> U256 {
    U256::from_u64(x)
}

fn id(digit: char) -> String {
    std::iter::repeat(digit).take(64).collect()
}

fn ledger_with(swap_fee: u64, fee_receiver: Address) -> Ledger {
    let mut instance: Option<Ledger> = None;
    let args = InitArgs {
        name: String::from("Token"),
        symbol: String::from("TKN"),
        decimals: 9,
        total_supply: u(1_000),
        events_mode: 1,
        enable_mint_burn: 1,
        mint_policy: MintPolicy::MinterOnly,
        admin_list: None,
        minter_list: Some(vec![minter()]),
        swap_fee: u(swap_fee),
        fee_receiver,
        supported_chains: vec![u(97), u(43113)],
        package_hash: package(),
    };
    assert_eq!(init(&mut instance, admin(), args), Ok(()));
    let mut ledger = instance.unwrap();
    transfer(&mut ledger, admin(), alice(), u(400)).unwrap();
    ledger
}

fn ledger() -> Ledger {
    ledger_with(10, treasury())
}

fn request(ledger: &mut Ledger, caller: Address, amount: u64, fee: u64, id: String) -> Result<Vec<Event>, Cep18Error> {
    request_bridge_back(ledger, caller, u(amount), u(fee), u(97), id, "0xdest".to_string())
}

#[test]
fn a_request_locks_the_amount_and_is_kept_at_the_next_index() {
    let mut ledger = ledger();
    assert_eq!(read_request_id(&ledger), U256::zero());
    let events = request(&mut ledger, alice(), 100, 10, id('a')).unwrap();
    assert_eq!(
        events,
        vec![
            Event::Transfer(Transfer {
                sender: alice(),
                recipient: package(),
                amount: u(100),
            }),
            Event::RegisterBridgeBack(RegisterBridgeBack {
                owner: alice(),
                amount: u(100),
                index: u(0),
                receiver_address: "0xdest".to_string(),
                to_chainid: u(97),
            }),
        ]
    );
    assert_eq!(balance_of(&ledger, alice()), u(300));
    assert_eq!(balance_of(&ledger, package()), u(100));
    assert_eq!(total_supply(&ledger), u(1_000));
    assert_eq!(read_request_id(&ledger), u(1));
    assert_eq!(read_request_map(&ledger, &id('a')), Some(u(0)));
    assert_eq!(read_request_map(&ledger, &id('b')), None);

    request(&mut ledger, admin(), 50, 10, id('b')).unwrap();
    assert_eq!(read_request_map(&ledger, &id('b')), Some(u(1)));
    let first = read_request_info(&ledger, u(0)).unwrap();
    assert_eq!(first.owner, alice());
    assert_eq!(first.amount, u(100));
    assert_eq!(first.fee, u(10));
    assert_eq!(first.index, u(0));
    assert_eq!(first.receiver_address, "0xdest");
    assert_eq!(first.to_chainid, u(97));
    assert_eq!(first.id, id('a'));
    let second = read_request_info(&ledger, u(1)).unwrap();
    assert_eq!(second.owner, admin());
    assert_eq!(second.index, u(1));
    assert!(read_request_info(&ledger, u(2)).is_none());
    assert!(read_request_info(&ledger, U256::max_value()).is_none());
    assert_eq!(balance_of(&ledger, package()), u(150));
}

#[test]
fn a_used_request_id_is_refused_and_nothing_moves() {
    let mut ledger = ledger();
    request(&mut ledger, alice(), 100, 10, id('a')).unwrap();
    assert_eq!(
        request(&mut ledger, alice(), 100, 10, id('a')),
        Err(Cep18Error::RequestIdExist)
    );
    assert_eq!(
        request(&mut ledger, admin(), 7, 10, id('a')),
        Err(Cep18Error::RequestIdExist)
    );
    assert_eq!(balance_of(&ledger, alice()), u(300));
    assert_eq!(balance_of(&ledger, admin()), u(600));
    assert_eq!(balance_of(&ledger, package()), u(100));
    assert_eq!(read_request_id(&ledger), u(1));
}

#[test]
fn a_request_is_refused_in_order() {
    let mut ledger = ledger();
    assert_eq!(
        request_bridge_back(
            &mut ledger,
            alice(),
            u(100),
            u(9),
            u(1),
            "zz".to_string(),
            "0xdest".to_string()
        ),
        Err(Cep18Error::UnsupportedChainIdForRequestBridgeBack)
    );
    assert_eq!(
        request(&mut ledger, alice(), 100, 9, "zz".to_string()),
        Err(Cep18Error::InvalidFee)
    );
    assert_eq!(
        request(&mut ledger, alice(), 100, 10, "zz".to_string()),
        Err(Cep18Error::RequestIdIllFormatted)
    );
    assert_eq!(
        request(&mut ledger, alice(), 9, 10, id('a')),
        Err(Cep18Error::RequestAmountTooLow)
    );
    assert_eq!(
        request(&mut ledger, alice(), 401, 10, id('a')),
        Err(Cep18Error::InsufficientBalance)
    );
    assert_eq!(read_request_map(&ledger, &id('a')), None);
    assert_eq!(read_request_id(&ledger), U256::zero());
    assert_eq!(balance_of(&ledger, alice()), u(400));
    request(&mut ledger, alice(), 400, 10, id('a')).unwrap();
    assert_eq!(balance_of(&ledger, alice()), U256::zero());
}

#[test]
fn a_request_id_is_sixty_four_hexadecimal_digits() {
    assert!(check_request_id(&id('0')));
    assert!(check_request_id(&id('9')));
    assert!(check_request_id(&id('a')));
    assert!(check_request_id(&id('f')));
    assert!(check_request_id(&id('A')));
    assert!(check_request_id(&id('F')));
    assert!(check_request_id(&"0123456789abcdefABCDEF0123456789".repeat(2)));
    assert!(!check_request_id(&id('g')));
    assert!(!check_request_id(&id('G')));
    assert!(!check_request_id(&id('/')));
    assert!(!check_request_id(&id(':')));
    assert!(!check_request_id(&id('@')));
    assert!(!check_request_id(&id('`')));
    assert!(!check_request_id(&id(' ')));
    assert!(!check_request_id(&String::new()));
    assert!(!check_request_id(&"ab".repeat(31)));
    assert!(!check_request_id(&"ab".repeat(33)));
    assert!(!check_request_id(&"a".repeat(63)));
    assert!(!check_request_id(&"a".repeat(65)));
    assert!(!check_request_id(&"636363".to_string()));
    let mut last_wrong = "a".repeat(63);
    last_wrong.push('x');
    assert!(!check_request_id(&last_wrong));
    // sixty-four characters that are no digits, in 128 bytes
    assert!(!check_request_id(&id('é')));
    // thirty-two two-byte characters: sixty-four bytes, but not sixty-four characters
    assert!(!check_request_id(&"é".repeat(32)));
}

#[test]
fn settlement_pays_the_fees_and_burns_the_rest() {
    let mut ledger = ledger();
    request(&mut ledger, alice(), 100, 10, id('a')).unwrap();
    let events = set_fee_request_bridge_back(&mut ledger, admin(), u(0), u(5)).unwrap();
    assert_eq!(
        events,
        vec![
            Event::Transfer(Transfer {
                sender: package(),
                recipient: treasury(),
                amount: u(15),
            }),
            Event::Burn(Burn {
                owner: package(),
                amount: u(85),
            }),
            Event::RequestBridgeBack(RequestBridgeBack {
                owner: alice(),
                amount: u(85),
                fee: u(15),
                index: u(0),
                receiver_address: "0xdest".to_string(),
                to_chainid: u(97),
            }),
            Event::SetFeeBridgeBack(SetFeeBridgeBack {
                request_id: u(0),
                fee: u(5),
            }),
        ]
    );
    assert_eq!(balance_of(&ledger, package()), U256::zero());
    assert_eq!(balance_of(&ledger, treasury()), u(15));
    assert_eq!(total_supply(&ledger), u(915));
    assert_eq!(balance_of(&ledger, admin()), u(600));
    assert_eq!(balance_of(&ledger, alice()), u(300));
}

#[test]
fn settlement_may_take_the_whole_amount_as_fees() {
    let mut ledger = ledger();
    request(&mut ledger, alice(), 100, 10, id('a')).unwrap();
    set_fee_request_bridge_back(&mut ledger, admin(), u(0), u(90)).unwrap();
    assert_eq!(balance_of(&ledger, package()), U256::zero());
    assert_eq!(balance_of(&ledger, treasury()), u(100));
    assert_eq!(total_supply(&ledger), u(1_000));
}

#[test]
fn settlement_is_refused_in_order() {
    let mut ledger = ledger();
    request(&mut ledger, alice(), 100, 10, id('a')).unwrap();
    for stranger in [alice(), minter(), bob()] {
        assert_eq!(
            set_fee_request_bridge_back(&mut ledger, stranger, u(7), u(5)),
            Err(Cep18Error::InsufficientRights)
        );
    }
    assert_eq!(
        set_fee_request_bridge_back(&mut ledger, admin(), u(1), u(5)),
        Err(Cep18Error::RequestNotFound)
    );
    assert_eq!(
        set_fee_request_bridge_back(&mut ledger, admin(), u(0), u(91)),
        Err(Cep18Error::RequestAmountTooLow)
    );
    assert_eq!(
        set_fee_request_bridge_back(&mut ledger, admin(), u(0), U256::max_value()),
        Err(Cep18Error::RequestAmountTooLow)
    );
    assert_eq!(balance_of(&ledger, package()), u(100));
    assert_eq!(total_supply(&ledger), u(1_000));
    set_fee_request_bridge_back(&mut ledger, admin(), u(0), u(0)).unwrap();
    assert_eq!(
        set_fee_request_bridge_back(&mut ledger, admin(), u(0), u(0)),
        Err(Cep18Error::InsufficientBalance)
    );
    assert_eq!(balance_of(&ledger, treasury()), u(10));
    assert_eq!(total_supply(&ledger), u(910));
}

#[test]
fn settlement_reckons_with_the_fee_of_the_time_of_the_request() {
    let mut ledger = ledger();
    request(&mut ledger, alice(), 100, 10, id('a')).unwrap();
    change_swap_fee(&mut ledger, admin(), u(40)).unwrap();
    set_fee_request_bridge_back(&mut ledger, admin(), u(0), u(1)).unwrap();
    assert_eq!(balance_of(&ledger, treasury()), u(11));
    assert_eq!(total_supply(&ledger), u(911));
}

#[test]
fn settlement_where_the_ledger_is_its_own_fee_receiver() {
    let mut ledger = ledger_with(10, package());
    request(&mut ledger, alice(), 100, 10, id('a')).unwrap();
    set_fee_request_bridge_back(&mut ledger, admin(), u(0), u(5)).unwrap();
    assert_eq!(balance_of(&ledger, package()), u(15));
    assert_eq!(total_supply(&ledger), u(915));
}

#[test]
fn a_request_by_the_ledger_itself_moves_nothing() {
    let mut ledger = ledger();
    transfer(&mut ledger, admin(), package(), u(50)).unwrap();
    request(&mut ledger, package(), 20, 10, id('a')).unwrap();
    assert_eq!(balance_of(&ledger, package()), u(50));
    assert_eq!(total_supply(&ledger), u(1_000));
    assert_eq!(
        request(&mut ledger, package(), 51, 10, id('b')),
        Err(Cep18Error::InsufficientBalance)
    );
}

#[test]
fn only_an_admin_lists_supported_chains() {
    let mut ledger = ledger();
    assert!(check_supported_chain(&ledger, u(97)));
    assert!(check_supported_chain(&ledger, u(43113)));
    assert!(!check_supported_chain(&ledger, u(1)));
    for stranger in [alice(), minter()] {
        assert_eq!(
            set_supported_chains(&mut ledger, stranger, vec![u(1)], true),
            Err(Cep18Error::InsufficientRights)
        );
    }
    assert!(!check_supported_chain(&ledger, u(1)));
    assert_eq!(
        set_supported_chains(&mut ledger, admin(), vec![u(1), u(97)], false),
        Ok(())
    );
    assert!(!check_supported_chain(&ledger, u(1)));
    assert!(!check_supported_chain(&ledger, u(97)));
    assert!(check_supported_chain(&ledger, u(43113)));
    assert_eq!(
        set_supported_chains(&mut ledger, admin(), vec![u(1), u(1)], true),
        Ok(())
    );
    assert!(check_supported_chain(&ledger, u(1)));
    assert_eq!(
        request(&mut ledger, alice(), 100, 10, id('a')),
        Err(Cep18Error::UnsupportedChainIdForRequestBridgeBack)
    );
}

#[test]
fn change_security_gives_and_takes_badges() {
    let mut ledger = ledger();
    let events = change_security(
        &mut ledger,
        admin(),
        Some(vec![alice(), admin()]),
        Some(vec![alice(), bob()]),
        Some(vec![minter()]),
    )
    .unwrap();
    let mut expected: Table<Address, SecurityBadge> = Table::new();
    expected.set(alice(), SecurityBadge::Admin);
    expected.set(bob(), SecurityBadge::Minter);
    expected.set(minter(), SecurityBadge::NoRights);
    assert_eq!(events.len(), 1);
    match &events[0] {
        Event::ChangeSecurity(ChangeSecurity {
            admin: by,
            sec_change_map,
        }) => {
            assert_eq!(*by, admin());
            assert_eq!(sec_change_map.len(), 3);
            for who in [alice(), bob(), minter()] {
                assert_eq!(sec_change_map.get(&who), expected.get(&who));
            }
            assert_eq!(sec_change_map.get(&admin()), None);
        }
        other => panic!("{:?}", other),
    }
    // the caller's own badge is untouched
    assert_eq!(change_swap_fee(&mut ledger, admin(), u(0)), Ok(()));
    // alice is an admin now, bob a minter, and the former minter has no rights
    assert_eq!(change_swap_fee(&mut ledger, alice(), u(0)), Ok(()));
    mint(&mut ledger, bob(), bob(), u(1), u(0), "a".to_string()).unwrap();
    assert_eq!(
        mint(&mut ledger, minter(), bob(), u(1), u(0), "b".to_string()),
        Err(Cep18Error::InsufficientRights)
    );
    assert_eq!(
        change_security(&mut ledger, minter(), Some(vec![minter()]), None, None),
        Err(Cep18Error::InsufficientRights)
    );
    assert_eq!(
        change_security(&mut ledger, bob(), Some(vec![bob()]), None, None),
        Err(Cep18Error::InsufficientRights)
    );
}

#[test]
fn an_admin_cannot_demote_itself_but_another_admin_can() {
    let mut ledger = ledger();
    change_security(&mut ledger, admin(), None, None, Some(vec![admin()])).unwrap();
    assert_eq!(change_swap_fee(&mut ledger, admin(), u(1)), Ok(()));
    change_security(&mut ledger, admin(), Some(vec![alice()]), None, None).unwrap();
    change_security(&mut ledger, alice(), None, None, Some(vec![admin()])).unwrap();
    assert_eq!(
        change_swap_fee(&mut ledger, admin(), u(2)),
        Err(Cep18Error::InsufficientRights)
    );
    assert_eq!(read_swap_fee(&ledger), u(1));
}

#[test]
fn sec_check_passes_holders_of_an_allowed_badge() {
    let mut ledger = ledger();
    let admins = vec![SecurityBadge::Admin];
    let minters = vec![SecurityBadge::Minter];
    let both = vec![SecurityBadge::Admin, SecurityBadge::Minter];
    assert_eq!(sec_check(&ledger, admin(), &admins), Ok(()));
    assert_eq!(
        sec_check(&ledger, admin(), &minters),
        Err(Cep18Error::InsufficientRights)
    );
    assert_eq!(sec_check(&ledger, minter(), &minters), Ok(()));
    assert_eq!(sec_check(&ledger, minter(), &both), Ok(()));
    assert_eq!(
        sec_check(&ledger, alice(), &both),
        Err(Cep18Error::InsufficientRights)
    );
    assert_eq!(
        sec_check(&ledger, admin(), &vec![]),
        Err(Cep18Error::InsufficientRights)
    );
    let mut map: Table<Address, SecurityBadge> = Table::new();
    map.set(alice(), SecurityBadge::Minter);
    map.set(minter(), SecurityBadge::NoRights);
    change_sec_badge(&mut ledger, &map);
    assert_eq!(sec_check(&ledger, alice(), &minters), Ok(()));
    assert_eq!(
        sec_check(&ledger, minter(), &both),
        Err(Cep18Error::InsufficientRights)
    );
}

#[test]
fn an_identity_without_rights_is_turned_away_everywhere() {
    let mut ledger = ledger();
    change_security(&mut ledger, admin(), None, None, Some(vec![bob()])).unwrap();
    for nobody in [alice(), bob()] {
        assert_eq!(
            mint(&mut ledger, nobody, alice(), u(20), u(10), "a".to_string()),
            Err(Cep18Error::InsufficientRights)
        );
        assert_eq!(
            change_security(&mut ledger, nobody, Some(vec![nobody]), None, None),
            Err(Cep18Error::InsufficientRights)
        );
        assert_eq!(
            cep18::token::change_fee_receiver(&mut ledger, nobody, nobody),
            Err(Cep18Error::InsufficientRights)
        );
        assert_eq!(
            change_swap_fee(&mut ledger, nobody, u(0)),
            Err(Cep18Error::InsufficientRights)
        );
        assert_eq!(
            set_supported_chains(&mut ledger, nobody, vec![u(5)], true),
            Err(Cep18Error::InsufficientRights)
        );
    }
    assert_eq!(read_swap_fee(&ledger), u(10));
    assert_eq!(read_fee_receiver(&ledger), treasury());
}

#[test]
fn settings_are_read_as_they_are_saved() {
    let mut ledger = ledger();
    assert_eq!(get_self_key(&ledger), package());
    save_swap_fee(&mut ledger, u(77));
    assert_eq!(read_swap_fee(&ledger), u(77));
    save_fee_receiver(&mut ledger, bob());
    assert_eq!(read_fee_receiver(&ledger), bob());
    save_request_map(&mut ledger, id('c'), u(5));
    assert_eq!(read_request_map(&ledger, &id('c')), Some(u(5)));
    assert_eq!(
        request(&mut ledger, alice(), 100, 77, id('c')),
        Err(Cep18Error::RequestIdExist)
    );
}

#[test]
fn end_to_end_mint_burn_bridge_and_settle() {
    let a = Address::account([0xa; 32]);
    let b = Address::account([0xb; 32]);
    let mut instance: Option<Ledger> = None;
    let args = InitArgs {
        name: String::from("Token"),
        symbol: String::from("TKN"),
        decimals: 9,
        total_supply: u(1_000_000),
        events_mode: 1,
        enable_mint_burn: 1,
        mint_policy: MintPolicy::AdminOrMinter,
        admin_list: Some(vec![a]),
        minter_list: Some(vec![a]),
        swap_fee: U256::zero(),
        fee_receiver: treasury(),
        supported_chains: vec![u(97)],
        package_hash: package(),
    };
    assert_eq!(init(&mut instance, a, args), Ok(()));
    let mut ledger = instance.unwrap();

    mint(&mut ledger, a, b, u(500), U256::zero(), "x".to_string()).unwrap();
    assert_eq!(balance_of(&ledger, b), u(500));
    assert_eq!(total_supply(&ledger), u(1_000_500));

    burn(&mut ledger, b, b, u(100)).unwrap();
    assert_eq!(balance_of(&ledger, b), u(400));
    assert_eq!(total_supply(&ledger), u(1_000_400));

    request_bridge_back(
        &mut ledger,
        b,
        u(400),
        U256::zero(),
        u(97),
        id('e'),
        "0xdest".to_string(),
    )
    .unwrap();
    assert_eq!(balance_of(&ledger, b), U256::zero());
    assert_eq!(balance_of(&ledger, package()), u(400));
    let kept = read_request_info(&ledger, U256::zero()).unwrap();
    assert_eq!(kept.owner, b);
    assert_eq!(kept.amount, u(400));
    assert_eq!(kept.fee, U256::zero());
    assert_eq!(kept.index, U256::zero());

    set_fee_request_bridge_back(&mut ledger, a, U256::zero(), U256::zero()).unwrap();
    assert_eq!(balance_of(&ledger, package()), U256::zero());
    assert_eq!(total_supply(&ledger), u(1_000_000));
    assert_eq!(balance_of(&ledger, a), u(1_000_000));
}
