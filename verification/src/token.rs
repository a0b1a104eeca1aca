//! The token operations: transfers, allowances, minting and burning.
use crate::access::{admin_check, is_admin, sec_check};
use crate::address::Address;
use crate::balances::{
    lemma_balance_bound,
    moved,
    read_amount,
    read_balance_from,
    transfer_balance,
    write_amount,
    write_balance_to,
};
use crate::error::Cep18Error;
use crate::events::{
    record_event_dictionary,
    recorded,
    views,
    Burn,
    DecreaseAllowance,
    Event,
    EventView,
    IncreaseAllowance,
    Mint,
    ParadisoMint,
    SetAllowance,
    Transfer,
    TransferFrom,
};
use crate::ledger::{Ledger, LedgerView};
use crate::security::{may_mint, SecurityBadge};
use crate::store::{mint_id_used, save_mintids};
use crate::uint::{max_u256, U256};
use vstd::prelude::*;

verus! {

/// The name of the token.
pub fn name(ledger: &Ledger) -> (r: String)
    ensures
        r@ == ledger@.name,
{
    ledger.name.clone()
}

/// The symbol of the token.
pub fn symbol(ledger: &Ledger) -> (r: String)
    ensures
        r@ == ledger@.symbol,
{
    ledger.symbol.clone()
}

/// The number of decimal places in which amounts are shown.
pub fn decimals(ledger: &Ledger) -> (r: u8)
    ensures
        r == ledger@.decimals,
{
    ledger.decimals
}

/// The total supply.
pub fn total_supply(ledger: &Ledger) -> (r: U256)
    ensures
        r@ == ledger@.total_supply,
{
    ledger.total_supply
}

/// The balance of `address`.
pub fn balance_of(ledger: &Ledger, address: Address) -> (r: U256)
    requires
        ledger.wf(),
    ensures
        r@ == ledger@.balances[address],
{
    read_balance_from(ledger, address)
}

/// What `spender` may still move out of the balance of `owner`.
pub fn allowance(ledger: &Ledger, owner: Address, spender: Address) -> (r: U256)
    requires
        ledger.wf(),
    ensures
        r@ == ledger@.allowances[(owner, spender)],
{
    read_allowance_from(ledger, owner, spender)
}

/// What `spender` may still move out of the balance of `owner`: zero where
/// nothing was granted.
pub fn read_allowance_from(ledger: &Ledger, owner: Address, spender: Address) -> (r: U256)
    requires
        ledger.wf(),
    ensures
        r@ == ledger@.allowances[(owner, spender)],
{
    let key: (Address, Address) = (owner, spender);
    read_amount(&ledger.allowances, &key)
}

/// Sets what `spender` may move out of the balance of `owner`.
pub(crate) fn write_allowance_to(
    ledger: &mut Ledger,
    owner: Address,
    spender: Address,
    amount: U256,
)
    requires
        old(ledger).wf(),
    ensures
        final(ledger).wf(),
        final(ledger)@ == (LedgerView {
            allowances: old(ledger)@.allowances.insert((owner, spender), amount@),
            ..old(ledger)@
        }),
{
    write_amount(&mut ledger.allowances, (owner, spender), amount);
}

/// Sets the allowance of `spender` over the balance of `owner` to `amount`,
/// whatever it was.
pub fn approve(ledger: &mut Ledger, owner: Address, spender: Address, amount: U256) -> (r: Result<
    Vec<Event>,
    Cep18Error,
>)
    requires
        old(ledger).wf(),
    ensures
        final(ledger).wf(),
        owner == spender ==> r == Err::<Vec<Event>, Cep18Error>(Cep18Error::CannotTargetSelfUser)
            && *final(ledger) == *old(ledger),
        owner != spender ==> {
            &&& r matches Ok(events)
            &&& views(events@) == recorded(
                old(ledger)@.events_mode,
                seq![EventView::SetAllowance { owner, spender, allowance: amount@ }],
            )
            &&& final(ledger)@ == (LedgerView {
                allowances: old(ledger)@.allowances.insert((owner, spender), amount@),
                ..old(ledger)@
            })
        },
{
    if spender.equals(&owner) {
        return Err(Cep18Error::CannotTargetSelfUser);
    }
    write_allowance_to(ledger, owner, spender, amount);
    let mut events: Vec<Event> = Vec::new();
    let event = Event::SetAllowance(SetAllowance { owner, spender, allowance: amount });
    record_event_dictionary(ledger.events_mode, event, &mut events);
    proof {
        assert(views(events@) =~= recorded(ledger.events_mode, seq![event@]));
    }
    Ok(events)
}

/// The allowance after it was lowered by `amount`: never below zero.
pub open spec fn lowered(allowance: nat, amount: nat) -> nat {
    if allowance >= amount {
        (allowance - amount) as nat
    } else {
        0
    }
}

/// The allowance after it was raised by `amount`: never above the largest
/// amount.
pub open spec fn raised(allowance: nat, amount: nat) -> nat {
    if allowance + amount <= max_u256() {
        allowance + amount
    } else {
        max_u256()
    }
}

/// Lowers the allowance of `spender` over the balance of `owner` by `amount`,
/// to zero where `amount` is the larger.
pub fn decrease_allowance(
    ledger: &mut Ledger,
    owner: Address,
    spender: Address,
    amount: U256,
) -> (r: Result<Vec<Event>, Cep18Error>)
    requires
        old(ledger).wf(),
    ensures
        final(ledger).wf(),
        owner == spender ==> r == Err::<Vec<Event>, Cep18Error>(Cep18Error::CannotTargetSelfUser)
            && *final(ledger) == *old(ledger),
        owner != spender ==> {
            let allowance = lowered(old(ledger)@.allowances[(owner, spender)], amount@);
            &&& r matches Ok(events)
            &&& views(events@) == recorded(
                old(ledger)@.events_mode,
                seq![EventView::DecreaseAllowance { owner, spender, allowance, decr_by: amount@ }],
            )
            &&& final(ledger)@ == (LedgerView {
                allowances: old(ledger)@.allowances.insert((owner, spender), allowance),
                ..old(ledger)@
            })
        },
{
    if spender.equals(&owner) {
        return Err(Cep18Error::CannotTargetSelfUser);
    }
    let current_allowance: U256 = read_allowance_from(ledger, owner, spender);
    let new_allowance: U256 = current_allowance.saturating_sub(amount);
    write_allowance_to(ledger, owner, spender, new_allowance);
    let mut events: Vec<Event> = Vec::new();
    let event = Event::DecreaseAllowance(
        DecreaseAllowance { owner, spender, allowance: new_allowance, decr_by: amount },
    );
    record_event_dictionary(ledger.events_mode, event, &mut events);
    proof {
        assert(views(events@) =~= recorded(ledger.events_mode, seq![event@]));
    }
    Ok(events)
}

/// Raises the allowance of `spender` over the balance of `owner` by `amount`,
/// to the largest amount where the sum would pass it.
pub fn increase_allowance(
    ledger: &mut Ledger,
    owner: Address,
    spender: Address,
    amount: U256,
) -> (r: Result<Vec<Event>, Cep18Error>)
    requires
        old(ledger).wf(),
    ensures
        final(ledger).wf(),
        owner == spender ==> r == Err::<Vec<Event>, Cep18Error>(Cep18Error::CannotTargetSelfUser)
            && *final(ledger) == *old(ledger),
        owner != spender ==> {
            let allowance = raised(old(ledger)@.allowances[(owner, spender)], amount@);
            &&& r matches Ok(events)
            &&& views(events@) == recorded(
                old(ledger)@.events_mode,
                seq![EventView::IncreaseAllowance { owner, spender, allowance, inc_by: amount@ }],
            )
            &&& final(ledger)@ == (LedgerView {
                allowances: old(ledger)@.allowances.insert((owner, spender), allowance),
                ..old(ledger)@
            })
        },
{
    if spender.equals(&owner) {
        return Err(Cep18Error::CannotTargetSelfUser);
    }
    let current_allowance: U256 = read_allowance_from(ledger, owner, spender);
    let new_allowance: U256 = current_allowance.saturating_add(amount);
    write_allowance_to(ledger, owner, spender, new_allowance);
    let mut events: Vec<Event> = Vec::new();
    let event = Event::IncreaseAllowance(
        IncreaseAllowance { owner, spender, allowance: new_allowance, inc_by: amount },
    );
    record_event_dictionary(ledger.events_mode, event, &mut events);
    proof {
        assert(views(events@) =~= recorded(ledger.events_mode, seq![event@]));
    }
    Ok(events)
}

/// Moves `amount` from the balance of `sender` to that of `recipient`.
pub fn transfer(ledger: &mut Ledger, sender: Address, recipient: Address, amount: U256) -> (r:
    Result<Vec<Event>, Cep18Error>)
    requires
        old(ledger).wf(),
    ensures
        final(ledger).wf(),
        r is Err ==> *final(ledger) == *old(ledger),
        sender == recipient ==> r == Err::<Vec<Event>, Cep18Error>(
            Cep18Error::CannotTargetSelfUser,
        ),
        sender != recipient && old(ledger)@.balances[sender] < amount@ ==> r == Err::<
            Vec<Event>,
            Cep18Error,
        >(Cep18Error::InsufficientBalance),
        sender != recipient && old(ledger)@.balances[sender] >= amount@ ==> {
            &&& r matches Ok(events)
            &&& views(events@) == recorded(
                old(ledger)@.events_mode,
                seq![EventView::Transfer { sender, recipient, amount: amount@ }],
            )
            &&& final(ledger)@ == (LedgerView {
                balances: moved(old(ledger)@.balances, sender, recipient, amount@),
                ..old(ledger)@
            })
        },
{
    if sender.equals(&recipient) {
        return Err(Cep18Error::CannotTargetSelfUser);
    }
    match transfer_balance(ledger, sender, recipient, amount) {
        Err(e) => {
            return Err(e);
        },
        Ok(_) => {},
    }
    let mut events: Vec<Event> = Vec::new();
    let event = Event::Transfer(Transfer { sender, recipient, amount });
    record_event_dictionary(ledger.events_mode, event, &mut events);
    proof {
        assert(views(events@) =~= recorded(ledger.events_mode, seq![event@]));
    }
    Ok(events)
}

/// Moves `amount` from the balance of `owner` to that of `recipient`, on the
/// word of `spender` and out of its allowance. A call for the amount zero
/// does nothing, and succeeds.
pub fn transfer_from(
    ledger: &mut Ledger,
    spender: Address,
    owner: Address,
    recipient: Address,
    amount: U256,
) -> (r: Result<Vec<Event>, Cep18Error>)
    requires
        old(ledger).wf(),
    ensures
        final(ledger).wf(),
        r is Err ==> *final(ledger) == *old(ledger),
        amount@ == 0 ==> {
            &&& r matches Ok(events)
            &&& events@.len() == 0
            &&& *final(ledger) == *old(ledger)
        },
        amount@ != 0 && owner == recipient ==> r == Err::<Vec<Event>, Cep18Error>(
            Cep18Error::CannotTargetSelfUser,
        ),
        amount@ != 0 && owner != recipient && old(ledger)@.allowances[(owner, spender)] < amount@
            ==> r == Err::<Vec<Event>, Cep18Error>(Cep18Error::InsufficientAllowance),
        amount@ != 0 && owner != recipient && old(ledger)@.allowances[(owner, spender)] >= amount@
            && old(ledger)@.balances[owner] < amount@ ==> r == Err::<Vec<Event>, Cep18Error>(
            Cep18Error::InsufficientBalance,
        ),
        amount@ != 0 && owner != recipient && old(ledger)@.allowances[(owner, spender)] >= amount@
            && old(ledger)@.balances[owner] >= amount@ ==> {
            &&& r matches Ok(events)
            &&& views(events@) == recorded(
                old(ledger)@.events_mode,
                seq![EventView::TransferFrom { spender, owner, recipient, amount: amount@ }],
            )
            &&& final(ledger)@.allowances[(owner, spender)] == old(ledger)@.allowances[(
                owner,
                spender,
            )] - amount@
            &&& final(ledger)@ == (LedgerView {
                balances: moved(old(ledger)@.balances, owner, recipient, amount@),
                allowances: old(ledger)@.allowances.insert(
                    (owner, spender),
                    (old(ledger)@.allowances[(owner, spender)] - amount@) as nat,
                ),
                ..old(ledger)@
            })
        },
{
    if amount.is_zero() {
        return Ok(Vec::new());
    }
    if owner.equals(&recipient) {
        return Err(Cep18Error::CannotTargetSelfUser);
    }
    let spender_allowance: U256 = read_allowance_from(ledger, owner, spender);
    let new_spender_allowance: U256 = match spender_allowance.checked_sub(amount) {
        Some(left) => left,
        None => {
            return Err(Cep18Error::InsufficientAllowance);
        },
    };
    match transfer_balance(ledger, owner, recipient, amount) {
        Err(e) => {
            return Err(e);
        },
        Ok(_) => {},
    }
    write_allowance_to(ledger, owner, spender, new_spender_allowance);
    let mut events: Vec<Event> = Vec::new();
    let event = Event::TransferFrom(TransferFrom { spender, owner, recipient, amount });
    record_event_dictionary(ledger.events_mode, event, &mut events);
    proof {
        assert(views(events@) =~= recorded(ledger.events_mode, seq![event@]));
    }
    Ok(events)
}

/// The balances after `amount` was created for `recipient`, less `swap_fee`,
/// and `swap_fee` was then created for `fee_receiver`.
pub open spec fn minted(
    balances: Map<Address, nat>,
    recipient: Address,
    fee_receiver: Address,
    amount: nat,
    swap_fee: nat,
) -> Map<Address, nat> {
    let credited = balances.insert(recipient, (balances[recipient] + amount - swap_fee) as nat);
    credited.insert(fee_receiver, credited[fee_receiver] + swap_fee)
}

/// Creates `amount` tokens: `amount` less `swap_fee` for `recipient`, and
/// `swap_fee` for the fee receiver. The total supply grows by `amount`. A
/// building block of the operations: it asks for no rights and no mint id.
pub fn _mint(ledger: &mut Ledger, recipient: Address, swap_fee: U256, amount: U256) -> (r: Result<
    Vec<Event>,
    Cep18Error,
>)
    requires
        old(ledger).wf(),
    ensures
        final(ledger).wf(),
        r is Err ==> *final(ledger) == *old(ledger),
        old(ledger)@.total_supply + amount@ > max_u256() || old(ledger)@.balances[recipient]
            + amount@ < swap_fee@ ==> r == Err::<Vec<Event>, Cep18Error>(Cep18Error::Overflow),
        old(ledger)@.total_supply + amount@ <= max_u256() && old(ledger)@.balances[recipient]
            + amount@ >= swap_fee@ ==> {
            &&& r matches Ok(events)
            &&& views(events@) == recorded(
                old(ledger)@.events_mode,
                seq![EventView::Mint { recipient, amount: amount@ }],
            )
            &&& final(ledger)@ == (LedgerView {
                balances: minted(
                    old(ledger)@.balances,
                    recipient,
                    old(ledger)@.fee_receiver,
                    amount@,
                    swap_fee@,
                ),
                total_supply: old(ledger)@.total_supply + amount@,
                ..old(ledger)@
            })
        },
{
    let new_total_supply: U256 = match ledger.total_supply.checked_add(amount) {
        Some(total) => total,
        None => {
            return Err(Cep18Error::Overflow);
        },
    };
    let balance: U256 = read_balance_from(ledger, recipient);
    proof {
        lemma_balance_bound(ledger.balances, recipient);
    }
    let gross: U256 = match balance.checked_add(amount) {
        Some(gross) => gross,
        None => {
            return Err(Cep18Error::Overflow);
        },
    };
    let new_balance: U256 = match gross.checked_sub(swap_fee) {
        Some(net) => net,
        None => {
            return Err(Cep18Error::Overflow);
        },
    };
    let fee_receiver: Address = ledger.fee_receiver;
    write_balance_to(&mut ledger.balances, recipient, new_balance);
    let fee_balance: U256 = read_amount(&ledger.balances, &fee_receiver);
    proof {
        lemma_balance_bound(ledger.balances, fee_receiver);
        new_total_supply.lemma_bounded();
    }
    let new_fee_balance: U256 = match fee_balance.checked_add(swap_fee) {
        Some(sum) => sum,
        None => {
            // No balance exceeds the total supply, which has room for the fee.
            proof {
                assert(false);
            }
            U256::zero()
        },
    };
    write_balance_to(&mut ledger.balances, fee_receiver, new_fee_balance);
    ledger.total_supply = new_total_supply;
    let mut events: Vec<Event> = Vec::new();
    let event = Event::Mint(Mint { recipient, amount });
    record_event_dictionary(ledger.events_mode, event, &mut events);
    proof {
        assert(views(events@) =~= recorded(ledger.events_mode, seq![event@]));
    }
    Ok(events)
}

/// Why a mint is refused, if it is. The first reason that holds is the one
/// reported.
pub open spec fn mint_refusal(
    ledger: LedgerView,
    caller: Address,
    amount: nat,
    swap_fee: nat,
    mintid: Seq<char>,
) -> Option<Cep18Error> {
    if !ledger.mint_burn_enabled {
        Some(Cep18Error::MintBurnDisabled)
    } else if !(ledger.badges.dom().contains(caller) && may_mint(
        ledger.mint_policy,
        ledger.badges[caller],
    )) {
        Some(Cep18Error::InsufficientRights)
    } else if ledger.mint_ids.contains(mintid) {
        Some(Cep18Error::AlreadyMint)
    } else if swap_fee != ledger.swap_fee {
        Some(Cep18Error::InvalidFee)
    } else if amount < swap_fee {
        Some(Cep18Error::MintTooLow)
    } else if ledger.total_supply + amount > max_u256() {
        Some(Cep18Error::Overflow)
    } else {
        None
    }
}

/// The ledger after a mint: the tokens were created, and the mint id is
/// consumed.
pub open spec fn after_mint(
    ledger: LedgerView,
    recipient: Address,
    amount: nat,
    swap_fee: nat,
    mintid: Seq<char>,
) -> LedgerView {
    LedgerView {
        balances: minted(ledger.balances, recipient, ledger.fee_receiver, amount, swap_fee),
        total_supply: ledger.total_supply + amount,
        mint_ids: ledger.mint_ids.insert(mintid),
        ..ledger
    }
}

/// Mints `amount` under the mint id `mintid`, on the word of a caller whose
/// badge allows it. The caller states the swap fee it reckons with; the mint
/// id is consumed.
pub fn mint(
    ledger: &mut Ledger,
    caller: Address,
    recipient: Address,
    amount: U256,
    swap_fee: U256,
    mintid: String,
) -> (r: Result<Vec<Event>, Cep18Error>)
    requires
        old(ledger).wf(),
    ensures
        final(ledger).wf(),
        match mint_refusal(old(ledger)@, caller, amount@, swap_fee@, mintid@) {
            Some(e) => r == Err::<Vec<Event>, Cep18Error>(e) && *final(ledger) == *old(ledger),
            None => {
                &&& r matches Ok(events)
                &&& views(events@) == recorded(
                    old(ledger)@.events_mode,
                    seq![
                        EventView::Mint { recipient, amount: amount@ },
                        EventView::ParadisoMint { recipient, amount: amount@, mintid: mintid@ },
                    ],
                )
                &&& final(ledger)@ == after_mint(
                    old(ledger)@,
                    recipient,
                    amount@,
                    swap_fee@,
                    mintid@,
                )
            },
        },
{
    if !ledger.mint_burn_enabled {
        return Err(Cep18Error::MintBurnDisabled);
    }
    let allowed: Vec<SecurityBadge> = ledger.mint_policy.allowed_badges();
    match sec_check(ledger, caller, &allowed) {
        Err(e) => {
            return Err(e);
        },
        Ok(_) => {},
    }
    if mint_id_used(ledger, &mintid) {
        return Err(Cep18Error::AlreadyMint);
    }
    if !ledger.swap_fee.equals(&swap_fee) {
        return Err(Cep18Error::InvalidFee);
    }
    if amount.lt(&swap_fee) {
        return Err(Cep18Error::MintTooLow);
    }
    let mut events: Vec<Event> = match _mint(ledger, recipient, swap_fee, amount) {
        Err(e) => {
            return Err(e);
        },
        Ok(events) => events,
    };
    save_mintids(ledger, mintid.clone());
    let event = Event::ParadisoMint(ParadisoMint { recipient, amount, mintid });
    record_event_dictionary(ledger.events_mode, event, &mut events);
    proof {
        assert(views(events@) =~= recorded(
            ledger.events_mode,
            seq![EventView::Mint { recipient, amount: amount@ }, event@],
        ));
    }
    Ok(events)
}

/// Destroys `amount` tokens of `owner`. The total supply shrinks by `amount`.
/// A building block of the operations: it asks for no rights.
pub fn burn_token(ledger: &mut Ledger, owner: Address, amount: U256) -> (r: Result<
    Vec<Event>,
    Cep18Error,
>)
    requires
        old(ledger).wf(),
    ensures
        final(ledger).wf(),
        old(ledger)@.balances[owner] < amount@ ==> r == Err::<Vec<Event>, Cep18Error>(
            Cep18Error::InsufficientBalance,
        ) && *final(ledger) == *old(ledger),
        old(ledger)@.balances[owner] >= amount@ ==> {
            &&& r matches Ok(events)
            &&& views(events@) == recorded(
                old(ledger)@.events_mode,
                seq![EventView::Burn { owner, amount: amount@ }],
            )
            &&& final(ledger)@ == (LedgerView {
                balances: old(ledger)@.balances.insert(
                    owner,
                    (old(ledger)@.balances[owner] - amount@) as nat,
                ),
                total_supply: (old(ledger)@.total_supply - amount@) as nat,
                ..old(ledger)@
            })
        },
{
    let balance: U256 = read_balance_from(ledger, owner);
    let new_balance: U256 = match balance.checked_sub(amount) {
        Some(left) => left,
        None => {
            return Err(Cep18Error::InsufficientBalance);
        },
    };
    proof {
        lemma_balance_bound(ledger.balances, owner);
    }
    let new_total_supply: U256 = match ledger.total_supply.checked_sub(amount) {
        Some(left) => left,
        None => {
            return Err(Cep18Error::Overflow);
        },
    };
    write_balance_to(&mut ledger.balances, owner, new_balance);
    ledger.total_supply = new_total_supply;
    let mut events: Vec<Event> = Vec::new();
    let event = Event::Burn(Burn { owner, amount });
    record_event_dictionary(ledger.events_mode, event, &mut events);
    proof {
        assert(views(events@) =~= recorded(ledger.events_mode, seq![event@]));
    }
    Ok(events)
}

/// Why a burn is refused, if it is. The first reason that holds is the one
/// reported.
pub open spec fn burn_refusal(
    ledger: LedgerView,
    caller: Address,
    owner: Address,
    amount: nat,
) -> Option<Cep18Error> {
    if !ledger.mint_burn_enabled {
        Some(Cep18Error::MintBurnDisabled)
    } else if owner != caller {
        Some(Cep18Error::InvalidBurnTarget)
    } else if ledger.balances[owner] < amount {
        Some(Cep18Error::InsufficientBalance)
    } else {
        None
    }
}

/// Burns `amount` tokens of `owner`, who must be the caller.
pub fn burn(ledger: &mut Ledger, caller: Address, owner: Address, amount: U256) -> (r: Result<
    Vec<Event>,
    Cep18Error,
>)
    requires
        old(ledger).wf(),
    ensures
        final(ledger).wf(),
        match burn_refusal(old(ledger)@, caller, owner, amount@) {
            Some(e) => r == Err::<Vec<Event>, Cep18Error>(e) && *final(ledger) == *old(ledger),
            None => {
                &&& r matches Ok(events)
                &&& views(events@) == recorded(
                    old(ledger)@.events_mode,
                    seq![EventView::Burn { owner, amount: amount@ }],
                )
                &&& final(ledger)@ == (LedgerView {
                    balances: old(ledger)@.balances.insert(
                        owner,
                        (old(ledger)@.balances[owner] - amount@) as nat,
                    ),
                    total_supply: (old(ledger)@.total_supply - amount@) as nat,
                    ..old(ledger)@
                })
            },
        },
{
    if !ledger.mint_burn_enabled {
        return Err(Cep18Error::MintBurnDisabled);
    }
    if !owner.equals(&caller) {
        return Err(Cep18Error::InvalidBurnTarget);
    }
    burn_token(ledger, owner, amount)
}

/// Names a new fee receiver, on the word of an admin.
pub fn change_fee_receiver(ledger: &mut Ledger, caller: Address, fee_receiver: Address) -> (r:
    Result<(), Cep18Error>)
    requires
        old(ledger).wf(),
    ensures
        final(ledger).wf(),
        !is_admin(old(ledger)@.badges, caller) ==> r == Err::<(), Cep18Error>(
            Cep18Error::InsufficientRights,
        ) && *final(ledger) == *old(ledger),
        is_admin(old(ledger)@.badges, caller) ==> r == Ok::<(), Cep18Error>(()) && final(ledger)@
            == (LedgerView { fee_receiver, ..old(ledger)@ }),
{
    match admin_check(ledger, caller) {
        Err(e) => Err(e),
        Ok(_) => {
            ledger.fee_receiver = fee_receiver;
            Ok(())
        },
    }
}

/// Sets a new swap fee, on the word of an admin.
pub fn change_swap_fee(ledger: &mut Ledger, caller: Address, swap_fee: U256) -> (r: Result<
    (),
    Cep18Error,
>)
    requires
        old(ledger).wf(),
    ensures
        final(ledger).wf(),
        !is_admin(old(ledger)@.badges, caller) ==> r == Err::<(), Cep18Error>(
            Cep18Error::InsufficientRights,
        ) && *final(ledger) == *old(ledger),
        is_admin(old(ledger)@.badges, caller) ==> r == Ok::<(), Cep18Error>(()) && final(ledger)@
            == (LedgerView { swap_fee: swap_fee@, ..old(ledger)@ }),
{
    match admin_check(ledger, caller) {
        Err(e) => Err(e),
        Ok(_) => {
            ledger.swap_fee = swap_fee;
            Ok(())
        },
    }
}

} // verus!
