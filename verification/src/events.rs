//! The events that the ledger's operations record.
use crate::address::Address;
use crate::security::{EventsMode, SecurityBadge};
use crate::table::Table;
use crate::uint::U256;
use vstd::prelude::*;

verus! {

/// Tokens were created.
#[derive(Debug, PartialEq, Eq)]
pub struct Mint {
    pub recipient: Address,
    pub amount: U256,
}

/// A bridge-in mint was carried out under a mint id.
#[derive(Debug, PartialEq, Eq)]
pub struct ParadisoMint {
    pub recipient: Address,
    pub amount: U256,
    pub mintid: String,
}

/// Tokens were destroyed.
#[derive(Debug, PartialEq, Eq)]
pub struct Burn {
    pub owner: Address,
    pub amount: U256,
}

/// An allowance was set.
#[derive(Debug, PartialEq, Eq)]
pub struct SetAllowance {
    pub owner: Address,
    pub spender: Address,
    pub allowance: U256,
}

/// An allowance was raised.
#[derive(Debug, PartialEq, Eq)]
pub struct IncreaseAllowance {
    pub owner: Address,
    pub spender: Address,
    pub allowance: U256,
    pub inc_by: U256,
}

/// An allowance was lowered.
#[derive(Debug, PartialEq, Eq)]
pub struct DecreaseAllowance {
    pub owner: Address,
    pub spender: Address,
    pub allowance: U256,
    pub decr_by: U256,
}

/// Tokens moved from one balance to another.
#[derive(Debug, PartialEq, Eq)]
pub struct Transfer {
    pub sender: Address,
    pub recipient: Address,
    pub amount: U256,
}

/// A spender moved tokens out of an owner's balance.
#[derive(Debug, PartialEq, Eq)]
pub struct TransferFrom {
    pub spender: Address,
    pub owner: Address,
    pub recipient: Address,
    pub amount: U256,
}

/// An admin changed badges.
#[derive(Debug, PartialEq, Eq)]
pub struct ChangeSecurity {
    pub admin: Address,
    pub sec_change_map: Table<Address, SecurityBadge>,
}

/// A bridge request was registered and its amount locked.
#[derive(Debug, PartialEq, Eq)]
pub struct RegisterBridgeBack {
    pub owner: Address,
    pub amount: U256,
    pub index: U256,
    pub receiver_address: String,
    pub to_chainid: U256,
}

/// A bridge request was settled: `amount` left circulation, `fee` went to
/// the fee receiver.
#[derive(Debug, PartialEq, Eq)]
pub struct RequestBridgeBack {
    pub owner: Address,
    pub amount: U256,
    pub fee: U256,
    pub index: U256,
    pub receiver_address: String,
    pub to_chainid: U256,
}

/// An admin added a fee to a bridge request.
#[derive(Debug, PartialEq, Eq)]
pub struct SetFeeBridgeBack {
    pub request_id: U256,
    pub fee: U256,
}

/// A balance of another token was redeemed into this one.
#[derive(Debug, PartialEq, Eq)]
pub struct Redeem {
    pub owner: Address,
    pub amount: U256,
    pub old_token_package_hash: Address,
}

/// An event of the ledger.
#[derive(Debug, PartialEq, Eq)]
pub enum Event {
    Mint(Mint),
    Burn(Burn),
    SetAllowance(SetAllowance),
    IncreaseAllowance(IncreaseAllowance),
    DecreaseAllowance(DecreaseAllowance),
    Transfer(Transfer),
    TransferFrom(TransferFrom),
    ChangeSecurity(ChangeSecurity),
    RegisterBridgeBack(RegisterBridgeBack),
    RequestBridgeBack(RequestBridgeBack),
    SetFeeBridgeBack(SetFeeBridgeBack),
    ParadisoMint(ParadisoMint),
    Redeem(Redeem),
}

/// What an event says, with amounts as numbers and texts as sequences of
/// characters.
pub ghost enum EventView {
    Mint { recipient: Address, amount: nat },
    Burn { owner: Address, amount: nat },
    SetAllowance { owner: Address, spender: Address, allowance: nat },
    IncreaseAllowance { owner: Address, spender: Address, allowance: nat, inc_by: nat },
    DecreaseAllowance { owner: Address, spender: Address, allowance: nat, decr_by: nat },
    Transfer { sender: Address, recipient: Address, amount: nat },
    TransferFrom { spender: Address, owner: Address, recipient: Address, amount: nat },
    ChangeSecurity { admin: Address, sec_change_map: Map<Address, SecurityBadge> },
    RegisterBridgeBack {
        owner: Address,
        amount: nat,
        index: nat,
        receiver_address: Seq<char>,
        to_chainid: nat,
    },
    RequestBridgeBack {
        owner: Address,
        amount: nat,
        fee: nat,
        index: nat,
        receiver_address: Seq<char>,
        to_chainid: nat,
    },
    SetFeeBridgeBack { request_id: nat, fee: nat },
    ParadisoMint { recipient: Address, amount: nat, mintid: Seq<char> },
    Redeem { owner: Address, amount: nat, old_token_package_hash: Address },
}

impl View for Event {
    type V = EventView;

    open spec fn view(&self) -> EventView {
        match *self {
            Event::Mint(e) => EventView::Mint { recipient: e.recipient, amount: e.amount@ },
            Event::Burn(e) => EventView::Burn { owner: e.owner, amount: e.amount@ },
            Event::SetAllowance(e) => EventView::SetAllowance {
                owner: e.owner,
                spender: e.spender,
                allowance: e.allowance@,
            },
            Event::IncreaseAllowance(e) => EventView::IncreaseAllowance {
                owner: e.owner,
                spender: e.spender,
                allowance: e.allowance@,
                inc_by: e.inc_by@,
            },
            Event::DecreaseAllowance(e) => EventView::DecreaseAllowance {
                owner: e.owner,
                spender: e.spender,
                allowance: e.allowance@,
                decr_by: e.decr_by@,
            },
            Event::Transfer(e) => EventView::Transfer {
                sender: e.sender,
                recipient: e.recipient,
                amount: e.amount@,
            },
            Event::TransferFrom(e) => EventView::TransferFrom {
                spender: e.spender,
                owner: e.owner,
                recipient: e.recipient,
                amount: e.amount@,
            },
            Event::ChangeSecurity(e) => EventView::ChangeSecurity {
                admin: e.admin,
                sec_change_map: e.sec_change_map@,
            },
            Event::RegisterBridgeBack(e) => EventView::RegisterBridgeBack {
                owner: e.owner,
                amount: e.amount@,
                index: e.index@,
                receiver_address: e.receiver_address@,
                to_chainid: e.to_chainid@,
            },
            Event::RequestBridgeBack(e) => EventView::RequestBridgeBack {
                owner: e.owner,
                amount: e.amount@,
                fee: e.fee@,
                index: e.index@,
                receiver_address: e.receiver_address@,
                to_chainid: e.to_chainid@,
            },
            Event::SetFeeBridgeBack(e) => EventView::SetFeeBridgeBack {
                request_id: e.request_id@,
                fee: e.fee@,
            },
            Event::ParadisoMint(e) => EventView::ParadisoMint {
                recipient: e.recipient,
                amount: e.amount@,
                mintid: e.mintid@,
            },
            Event::Redeem(e) => EventView::Redeem {
                owner: e.owner,
                amount: e.amount@,
                old_token_package_hash: e.old_token_package_hash,
            },
        }
    }
}

/// What a list of events says, one by one.
pub open spec fn views(events: Seq<Event>) -> Seq<EventView> {
    Seq::new(events.len(), |i: int| events[i]@)
}

/// What is recorded of the events that an operation gives rise to: all of
/// them, or none where recording is switched off.
pub open spec fn recorded(mode: EventsMode, events: Seq<EventView>) -> Seq<EventView> {
    match mode {
        EventsMode::NoEvents => Seq::empty(),
        EventsMode::CES => events,
    }
}

/// Adds `event` to the record of the running operation, unless recording is
/// switched off.
pub fn record_event_dictionary(mode: EventsMode, event: Event, log: &mut Vec<Event>)
    ensures
        views(final(log)@) == match mode {
            EventsMode::NoEvents => views(old(log)@),
            EventsMode::CES => views(old(log)@).push(event@),
        },
{
    match mode {
        EventsMode::NoEvents => {},
        EventsMode::CES => {
            log.push(event);
            assert(views(log@) =~= views(old(log)@).push(event@));
        },
    }
}

} // verus!
