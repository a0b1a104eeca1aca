//! Setting a ledger up.
use crate::access::{list_badges, listed};
use crate::address::Address;
use crate::balances::write_balance_to;
use crate::error::Cep18Error;
use crate::flags::{listed_keys, set_flags};
use crate::ledger::{amount_map, flag_set, index_map, key_set, Ledger, LedgerView};
use crate::security::{EventsMode, MintPolicy, SecurityBadge};
use crate::table::Table;
use crate::uint::U256;
use vstd::prelude::*;

verus! {

/// The events mode that a number stands for.
pub open spec fn events_mode_of(mode: u8) -> Option<EventsMode> {
    if mode == 0 {
        Some(EventsMode::NoEvents)
    } else if mode == 1 {
        Some(EventsMode::CES)
    } else {
        None
    }
}

impl EventsMode {
    /// The events mode that a number stands for, if it stands for one.
    pub fn from_u8(mode: u8) -> (r: Result<EventsMode, Cep18Error>)
        ensures
            r == match events_mode_of(mode) {
                Some(m) => Ok::<EventsMode, Cep18Error>(m),
                None => Err::<EventsMode, Cep18Error>(Cep18Error::InvalidEventsMode),
            },
    {
        if mode == 0 {
            Ok(EventsMode::NoEvents)
        } else if mode == 1 {
            Ok(EventsMode::CES)
        } else {
            Err(Cep18Error::InvalidEventsMode)
        }
    }
}

/// What a ledger is set up with.
pub struct InitArgs {
    pub name: String,
    pub symbol: String,
    pub decimals: u8,
    /// The initial supply, all of it credited to the caller.
    pub total_supply: U256,
    /// 0 to record no events, 1 to record them.
    pub events_mode: u8,
    /// 0 to switch minting and burning off, anything else to switch them on.
    pub enable_mint_burn: u8,
    pub mint_policy: MintPolicy,
    pub admin_list: Option<Vec<Address>>,
    pub minter_list: Option<Vec<Address>>,
    pub swap_fee: U256,
    pub fee_receiver: Address,
    pub supported_chains: Vec<U256>,
    /// The identity under which the ledger itself will hold locked tokens.
    pub package_hash: Address,
}

/// The badges of a new ledger: the caller is an admin, the listed minters
/// are minters, and the listed admins are admins, whatever else they are.
pub open spec fn initial_badges(
    caller: Address,
    admin_list: Seq<Address>,
    minter_list: Seq<Address>,
) -> Map<Address, SecurityBadge> {
    Map::new(
        |a: Address| a == caller || admin_list.contains(a) || minter_list.contains(a),
        |a: Address|
            if admin_list.contains(a) {
                SecurityBadge::Admin
            } else if minter_list.contains(a) {
                SecurityBadge::Minter
            } else {
                SecurityBadge::Admin
            },
    )
}

/// The state of a ledger that was just set up by `caller`.
pub open spec fn initial_view(caller: Address, args: InitArgs) -> LedgerView {
    LedgerView {
        name: args.name@,
        symbol: args.symbol@,
        decimals: args.decimals,
        package: args.package_hash,
        events_mode: events_mode_of(args.events_mode).unwrap(),
        mint_burn_enabled: args.enable_mint_burn != 0,
        mint_policy: args.mint_policy,
        total_supply: args.total_supply@,
        balances: Map::total(|a: Address| 0nat).insert(caller, args.total_supply@),
        allowances: Map::total(|k: (Address, Address)| 0nat),
        badges: initial_badges(caller, listed(args.admin_list), listed(args.minter_list)),
        swap_fee: args.swap_fee@,
        fee_receiver: args.fee_receiver,
        mint_ids: Set::empty(),
        request_ids: Map::empty(),
        requests: Seq::empty(),
        supported_chains: listed_keys(args.supported_chains@),
        redeem_tokens: Set::empty(),
    }
}

/// Sets the ledger up, once: a second call finds it set up and is refused.
pub fn init(instance: &mut Option<Ledger>, caller: Address, args: InitArgs) -> (r: Result<
    (),
    Cep18Error,
>)
    requires
        *old(instance) matches Some(ledger) ==> ledger.wf(),
    ensures
        *old(instance) is Some ==> r == Err::<(), Cep18Error>(Cep18Error::AlreadyInitialized)
            && *final(instance) == *old(instance),
        *old(instance) is None && events_mode_of(args.events_mode) is None ==> r == Err::<
            (),
            Cep18Error,
        >(Cep18Error::InvalidEventsMode) && *final(instance) == *old(instance),
        *old(instance) is None && events_mode_of(args.events_mode) is Some ==> {
            &&& r == Ok::<(), Cep18Error>(())
            &&& *final(instance) matches Some(ledger)
            &&& ledger.wf()
            &&& ledger@ == initial_view(caller, args)
        },
{
    if instance.is_some() {
        return Err(Cep18Error::AlreadyInitialized);
    }
    let events_mode: EventsMode = match EventsMode::from_u8(args.events_mode) {
        Ok(mode) => mode,
        Err(e) => {
            return Err(e);
        },
    };
    let ghost expected = initial_view(caller, args);
    let mut balances: Table<Address, U256> = Table::new();
    proof {
        assert(amount_map(balances) =~= Map::total(|a: Address| 0nat));
    }
    write_balance_to(&mut balances, caller, args.total_supply);
    let allowances: Table<(Address, Address), U256> = Table::new();
    let mut badges: Table<Address, SecurityBadge> = Table::new();
    badges.set(caller, SecurityBadge::Admin);
    proof {
        assert forall|a: Address| #![trigger badges.has(a)] badges.has(a) <==> a == caller by {
            assert(badges.has(a) == badges@.dom().contains(a));
        }
        assert forall|a: Address| #![trigger badges.at(a)] badges.has(a) implies badges.at(a)
            == SecurityBadge::Admin by {
            assert(badges.at(a) == badges@[a]);
        }
    }
    list_badges(&mut badges, &args.minter_list, SecurityBadge::Minter, None);
    list_badges(&mut badges, &args.admin_list, SecurityBadge::Admin, None);
    let mut supported_chains: Table<U256, bool> = Table::new();
    let redeem_tokens: Table<Address, bool> = Table::new();
    let mint_ids: Table<String, ()> = Table::new();
    let request_ids: Table<String, U256> = Table::new();
    proof {
        assert(flag_set(supported_chains) =~= Set::<nat>::empty());
        assert(flag_set(redeem_tokens) =~= Set::<Address>::empty());
        assert(key_set(mint_ids) =~= Set::<Seq<char>>::empty());
        assert(index_map(request_ids) =~= Map::<Seq<char>, nat>::empty());
        assert(amount_map(allowances) =~= Map::total(|k: (Address, Address)| 0nat));
    }
    set_flags(&mut supported_chains, &args.supported_chains, true);
    let ledger = Ledger {
        name: args.name,
        symbol: args.symbol,
        decimals: args.decimals,
        package: args.package_hash,
        events_mode,
        mint_burn_enabled: args.enable_mint_burn != 0,
        mint_policy: args.mint_policy,
        total_supply: args.total_supply,
        balances,
        allowances,
        badges,
        swap_fee: args.swap_fee,
        fee_receiver: args.fee_receiver,
        mint_ids,
        request_ids,
        requests: Vec::new(),
        supported_chains,
        redeem_tokens,
    };
    proof {
        assert(ledger@.badges =~= expected.badges);
        assert(ledger@.supported_chains =~= expected.supported_chains);
        assert(ledger@.requests =~= expected.requests);
        assert(ledger@ == expected);
    }
    *instance = Some(ledger);
    Ok(())
}

} // verus!
