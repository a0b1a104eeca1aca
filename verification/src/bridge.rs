//! The bridge: locking tokens for release on another chain, and settling
//! what was locked.
use crate::access::{admin_check, is_admin};
use crate::address::Address;
use crate::balances::{moved, read_balance_from, transfer_balance};
use crate::error::Cep18Error;
use crate::events::{
    record_event_dictionary,
    recorded,
    views,
    Event,
    EventView,
    RegisterBridgeBack,
    RequestBridgeBack,
    SetFeeBridgeBack,
    Transfer,
};
use crate::flags::{flagged, listed_keys, read_flag, set_flags};
use crate::hextext::{hex_decodes, is_hex_text};
use crate::ledger::{request_views, Ledger, LedgerView, RequestBridgeBackInfo, RequestView};
use crate::store::{read_request_map, save_request_map};
use crate::token::burn_token;
use crate::uint::U256;
use vstd::prelude::*;
use vstd::string::StrSliceExecFns;

verus! {

/// The number of characters of an external request id.
pub const REQUEST_ID_LENGTH: usize = 64;

/// Whether `id` has the form of an external request id.
pub open spec fn well_formed_id(id: Seq<char>) -> bool {
    id.len() == REQUEST_ID_LENGTH && is_hex_text(id)
}

/// Whether `id` has the form of an external request id.
pub fn check_request_id(id: &String) -> (r: bool)
    ensures
        r == well_formed_id(id@),
{
    if id.as_str().unicode_len() != REQUEST_ID_LENGTH {
        return false;
    }
    hex_decodes(id)
}

/// Whether bridge requests may name `chain` as their destination.
pub fn check_supported_chain(ledger: &Ledger, chain: U256) -> (r: bool)
    requires
        ledger.wf(),
    ensures
        r == ledger@.supported_chains.contains(chain@),
{
    read_flag(&ledger.supported_chains, &chain)
}

/// Allows or disallows the listed chains as destinations, on the word of an
/// admin.
pub fn set_supported_chains(
    ledger: &mut Ledger,
    caller: Address,
    supported_chains: Vec<U256>,
    is_supported: bool,
) -> (r: Result<(), Cep18Error>)
    requires
        old(ledger).wf(),
    ensures
        final(ledger).wf(),
        !is_admin(old(ledger)@.badges, caller) ==> r == Err::<(), Cep18Error>(
            Cep18Error::InsufficientRights,
        ) && *final(ledger) == *old(ledger),
        is_admin(old(ledger)@.badges, caller) ==> r == Ok::<(), Cep18Error>(()) && final(ledger)@
            == (LedgerView {
            supported_chains: flagged(
                old(ledger)@.supported_chains,
                listed_keys(supported_chains@),
                is_supported,
            ),
            ..old(ledger)@
        }),
{
    match admin_check(ledger, caller) {
        Err(e) => Err(e),
        Ok(_) => {
            set_flags(&mut ledger.supported_chains, &supported_chains, is_supported);
            Ok(())
        },
    }
}

/// The bridge request with the given index, if there is one.
pub fn read_request_info(ledger: &Ledger, request_id: U256) -> (r: Option<&RequestBridgeBackInfo>)
    requires
        ledger.wf(),
    ensures
        match r {
            Some(info) => request_id@ < ledger@.requests.len() && info@
                == ledger@.requests[request_id@ as int],
            None => request_id@ >= ledger@.requests.len(),
        },
{
    let count: usize = ledger.requests.len();
    match request_id.to_usize() {
        Some(i) => {
            if i < count {
                Some(&ledger.requests[i])
            } else {
                None
            }
        },
        None => None,
    }
}

/// Why a bridge request is refused, if it is. The first reason that holds is
/// the one reported.
pub open spec fn request_refusal(
    ledger: LedgerView,
    caller: Address,
    amount: nat,
    fee: nat,
    to_chainid: nat,
    id: Seq<char>,
) -> Option<Cep18Error> {
    if !ledger.supported_chains.contains(to_chainid) {
        Some(Cep18Error::UnsupportedChainIdForRequestBridgeBack)
    } else if fee != ledger.swap_fee {
        Some(Cep18Error::InvalidFee)
    } else if !well_formed_id(id) {
        Some(Cep18Error::RequestIdIllFormatted)
    } else if ledger.request_ids.dom().contains(id) {
        Some(Cep18Error::RequestIdExist)
    } else if amount < fee {
        Some(Cep18Error::RequestAmountTooLow)
    } else if ledger.balances[caller] < amount {
        Some(Cep18Error::InsufficientBalance)
    } else {
        None
    }
}

/// The request that a successful call registers.
pub open spec fn registered(
    ledger: LedgerView,
    caller: Address,
    amount: nat,
    fee: nat,
    to_chainid: nat,
    id: Seq<char>,
    receiver_address: Seq<char>,
) -> RequestView {
    RequestView {
        owner: caller,
        amount,
        fee,
        index: ledger.requests.len(),
        receiver_address,
        to_chainid,
        id,
    }
}

/// The ledger after a bridge request was registered: the amount has moved
/// from the caller to the ledger's own balance, the request stands at the
/// next index, and the external id is used.
pub open spec fn after_request(
    ledger: LedgerView,
    caller: Address,
    amount: nat,
    fee: nat,
    to_chainid: nat,
    id: Seq<char>,
    receiver_address: Seq<char>,
) -> LedgerView {
    LedgerView {
        balances: moved(ledger.balances, caller, ledger.package, amount),
        request_ids: ledger.request_ids.insert(id, ledger.requests.len()),
        requests: ledger.requests.push(
            registered(ledger, caller, amount, fee, to_chainid, id, receiver_address),
        ),
        ..ledger
    }
}

/// Registers a request to release `amount` on the chain `to_chainid`, and
/// locks the amount in the ledger's own balance. The caller states the fee
/// it reckons with, and an external id that no earlier request has used.
pub fn request_bridge_back(
    ledger: &mut Ledger,
    caller: Address,
    amount: U256,
    fee: U256,
    to_chainid: U256,
    id: String,
    receiver_address: String,
) -> (r: Result<Vec<Event>, Cep18Error>)
    requires
        old(ledger).wf(),
    ensures
        final(ledger).wf(),
        match request_refusal(old(ledger)@, caller, amount@, fee@, to_chainid@, id@) {
            Some(e) => r == Err::<Vec<Event>, Cep18Error>(e) && *final(ledger) == *old(ledger),
            None => {
                &&& r matches Ok(events)
                &&& views(events@) == recorded(
                    old(ledger)@.events_mode,
                    seq![
                        EventView::Transfer {
                            sender: caller,
                            recipient: old(ledger)@.package,
                            amount: amount@,
                        },
                        EventView::RegisterBridgeBack {
                            owner: caller,
                            amount: amount@,
                            index: old(ledger)@.requests.len(),
                            receiver_address: receiver_address@,
                            to_chainid: to_chainid@,
                        },
                    ],
                )
                &&& final(ledger)@ == after_request(
                    old(ledger)@,
                    caller,
                    amount@,
                    fee@,
                    to_chainid@,
                    id@,
                    receiver_address@,
                )
            },
        },
{
    if !check_supported_chain(ledger, to_chainid) {
        return Err(Cep18Error::UnsupportedChainIdForRequestBridgeBack);
    }
    if !fee.equals(&ledger.swap_fee) {
        return Err(Cep18Error::InvalidFee);
    }
    if !check_request_id(&id) {
        return Err(Cep18Error::RequestIdIllFormatted);
    }
    if read_request_map(ledger, &id).is_some() {
        return Err(Cep18Error::RequestIdExist);
    }
    if amount.lt(&fee) {
        return Err(Cep18Error::RequestAmountTooLow);
    }
    let package: Address = ledger.package;
    match transfer_balance(ledger, caller, package, amount) {
        Err(e) => {
            return Err(e);
        },
        Ok(_) => {},
    }
    let index: U256 = U256::from_u64(ledger.requests.len() as u64);
    save_request_map(ledger, id.clone(), index);
    let request_info = RequestBridgeBackInfo {
        owner: caller,
        amount,
        fee,
        index,
        receiver_address: receiver_address.clone(),
        to_chainid,
        id,
    };
    let ghost before = ledger.requests@;
    ledger.requests.push(request_info);
    proof {
        assert(request_views(ledger.requests@) =~= request_views(before).push(request_info@));
    }
    let mut events: Vec<Event> = Vec::new();
    let moved_event = Event::Transfer(Transfer { sender: caller, recipient: package, amount });
    record_event_dictionary(ledger.events_mode, moved_event, &mut events);
    let registered_event = Event::RegisterBridgeBack(
        RegisterBridgeBack { owner: caller, amount, index, receiver_address, to_chainid },
    );
    record_event_dictionary(ledger.events_mode, registered_event, &mut events);
    proof {
        assert(views(events@) =~= recorded(
            ledger.events_mode,
            seq![moved_event@, registered_event@],
        ));
    }
    Ok(events)
}

/// Why the settlement of a bridge request is refused, if it is. The first
/// reason that holds is the one reported.
pub open spec fn settle_refusal(
    ledger: LedgerView,
    caller: Address,
    request_id: nat,
    fee: nat,
) -> Option<Cep18Error> {
    if !is_admin(ledger.badges, caller) {
        Some(Cep18Error::InsufficientRights)
    } else if request_id >= ledger.requests.len() {
        Some(Cep18Error::RequestNotFound)
    } else {
        let request = ledger.requests[request_id as int];
        let total_fee = fee + request.fee;
        let paid = moved(ledger.balances, ledger.package, ledger.fee_receiver, total_fee);
        if total_fee > request.amount {
            Some(Cep18Error::RequestAmountTooLow)
        } else if ledger.balances[ledger.package] < total_fee || paid[ledger.package]
            < request.amount - total_fee {
            Some(Cep18Error::InsufficientBalance)
        } else {
            None
        }
    }
}

/// The ledger after a bridge request was settled: the fees have moved from
/// the ledger's own balance to the fee receiver, and the rest of the locked
/// amount has left circulation.
pub open spec fn after_settlement(ledger: LedgerView, request_id: nat, fee: nat) -> LedgerView {
    let request = ledger.requests[request_id as int];
    let total_fee = fee + request.fee;
    let rest = (request.amount - total_fee) as nat;
    let paid = moved(ledger.balances, ledger.package, ledger.fee_receiver, total_fee);
    LedgerView {
        balances: paid.insert(ledger.package, (paid[ledger.package] - rest) as nat),
        total_supply: (ledger.total_supply - rest) as nat,
        ..ledger
    }
}

/// The events of a settlement.
pub open spec fn settlement_events(ledger: LedgerView, request_id: nat, fee: nat) -> Seq<
    EventView,
> {
    let request = ledger.requests[request_id as int];
    let total_fee = fee + request.fee;
    let rest = (request.amount - total_fee) as nat;
    seq![
        EventView::Transfer {
            sender: ledger.package,
            recipient: ledger.fee_receiver,
            amount: total_fee,
        },
        EventView::Burn { owner: ledger.package, amount: rest },
        EventView::RequestBridgeBack {
            owner: request.owner,
            amount: rest,
            fee: total_fee,
            index: request_id,
            receiver_address: request.receiver_address,
            to_chainid: request.to_chainid,
        },
        EventView::SetFeeBridgeBack { request_id, fee },
    ]
}

/// Checks a settlement before anything is changed, and works out the two
/// amounts of it: the fees in all, and the rest of the locked amount.
fn settlement_terms(ledger: &Ledger, caller: Address, request_id: U256, fee: U256) -> (r: Result<
    (U256, U256),
    Cep18Error,
>)
    requires
        ledger.wf(),
    ensures
        match settle_refusal(ledger@, caller, request_id@, fee@) {
            Some(e) => r == Err::<(U256, U256), Cep18Error>(e),
            None => {
                &&& r matches Ok(terms)
                &&& terms.0@ == fee@ + ledger@.requests[request_id@ as int].fee
                &&& terms.1@ == ledger@.requests[request_id@ as int].amount - terms.0@
            },
        },
{
    match admin_check(ledger, caller) {
        Err(e) => {
            return Err(e);
        },
        Ok(_) => {},
    }
    let (request_amount, request_fee) = match read_request_info(ledger, request_id) {
        Some(info) => (info.amount, info.fee),
        None => {
            return Err(Cep18Error::RequestNotFound);
        },
    };
    proof {
        request_amount.lemma_bounded();
    }
    let total_fee: U256 = match fee.checked_add(request_fee) {
        Some(sum) => sum,
        None => {
            return Err(Cep18Error::RequestAmountTooLow);
        },
    };
    let request_amount_after_fee: U256 = match request_amount.checked_sub(total_fee) {
        Some(rest) => rest,
        None => {
            return Err(Cep18Error::RequestAmountTooLow);
        },
    };
    let package: Address = ledger.package;
    let fee_receiver: Address = ledger.fee_receiver;
    let locked: U256 = read_balance_from(ledger, package);
    let locked_after_fee: U256 = match locked.checked_sub(total_fee) {
        Some(rest) => if package.equals(&fee_receiver) {
            locked
        } else {
            rest
        },
        None => {
            return Err(Cep18Error::InsufficientBalance);
        },
    };
    if locked_after_fee.lt(&request_amount_after_fee) {
        return Err(Cep18Error::InsufficientBalance);
    }
    Ok((total_fee, request_amount_after_fee))
}

/// Pays `total_fee` out of the ledger's own balance to the fee receiver, and
/// burns `rest` out of what is left there.
fn pay_and_burn(ledger: &mut Ledger, total_fee: U256, rest: U256) -> (events: Vec<Event>)
    requires
        old(ledger).wf(),
        old(ledger)@.balances[old(ledger)@.package] >= total_fee@,
        moved(
            old(ledger)@.balances,
            old(ledger)@.package,
            old(ledger)@.fee_receiver,
            total_fee@,
        )[old(ledger)@.package] >= rest@,
    ensures
        final(ledger).wf(),
        final(ledger)@ == ({
            let before = old(ledger)@;
            let paid = moved(before.balances, before.package, before.fee_receiver, total_fee@);
            LedgerView {
                balances: paid.insert(before.package, (paid[before.package] - rest@) as nat),
                total_supply: (before.total_supply - rest@) as nat,
                ..before
            }
        }),
        views(events@) == recorded(
            old(ledger)@.events_mode,
            seq![
                EventView::Transfer {
                    sender: old(ledger)@.package,
                    recipient: old(ledger)@.fee_receiver,
                    amount: total_fee@,
                },
                EventView::Burn { owner: old(ledger)@.package, amount: rest@ },
            ],
        ),
{
    let package: Address = ledger.package;
    let fee_receiver: Address = ledger.fee_receiver;
    match transfer_balance(ledger, package, fee_receiver, total_fee) {
        Ok(_) => {},
        Err(_) => {},
    }
    let mut events: Vec<Event> = Vec::new();
    let paid_event = Event::Transfer(
        Transfer { sender: package, recipient: fee_receiver, amount: total_fee },
    );
    record_event_dictionary(ledger.events_mode, paid_event, &mut events);
    match burn_token(ledger, package, rest) {
        Ok(burned) => {
            let mut burned: Vec<Event> = burned;
            let ghost first = views(events@);
            let ghost second = views(burned@);
            events.append(&mut burned);
            proof {
                assert(views(events@) =~= first + second);
            }
        },
        Err(_) => {},
    }
    proof {
        assert(views(events@) =~= recorded(
            ledger@.events_mode,
            seq![paid_event@, EventView::Burn { owner: package, amount: rest@ }],
        ));
    }
    events
}

/// Settles a bridge request, on the word of an admin: `fee` and the fee
/// recorded with the request go to the fee receiver, and the rest of the
/// locked amount is burned.
pub fn set_fee_request_bridge_back(
    ledger: &mut Ledger,
    caller: Address,
    request_id: U256,
    fee: U256,
) -> (r: Result<Vec<Event>, Cep18Error>)
    requires
        old(ledger).wf(),
    ensures
        final(ledger).wf(),
        match settle_refusal(old(ledger)@, caller, request_id@, fee@) {
            Some(e) => r == Err::<Vec<Event>, Cep18Error>(e) && *final(ledger) == *old(ledger),
            None => {
                &&& r matches Ok(events)
                &&& views(events@) == recorded(
                    old(ledger)@.events_mode,
                    settlement_events(old(ledger)@, request_id@, fee@),
                )
                &&& final(ledger)@ == after_settlement(old(ledger)@, request_id@, fee@)
            },
        },
{
    let (total_fee, rest) = match settlement_terms(ledger, caller, request_id, fee) {
        Ok(terms) => terms,
        Err(e) => {
            return Err(e);
        },
    };
    let (owner, to_chainid, receiver_address) = match read_request_info(ledger, request_id) {
        Some(info) => (info.owner, info.to_chainid, info.receiver_address.clone()),
        None => {
            return Err(Cep18Error::RequestNotFound);
        },
    };
    let mut events: Vec<Event> = pay_and_burn(ledger, total_fee, rest);
    let settled_event = Event::RequestBridgeBack(
        RequestBridgeBack {
            owner,
            amount: rest,
            fee: total_fee,
            index: request_id,
            receiver_address,
            to_chainid,
        },
    );
    record_event_dictionary(ledger.events_mode, settled_event, &mut events);
    let fee_event = Event::SetFeeBridgeBack(SetFeeBridgeBack { request_id, fee });
    record_event_dictionary(ledger.events_mode, fee_event, &mut events);
    proof {
        let expected = settlement_events(old(ledger)@, request_id@, fee@);
        assert(expected[2] == settled_event@);
        assert(expected[3] == fee_event@);
        assert(views(events@) =~= recorded(ledger@.events_mode, expected));
    }
    Ok(events)
}

} // verus!
