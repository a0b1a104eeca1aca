//! Redemption: taking in what was burned on another ledger of the same asset.
use crate::access::{admin_check, is_admin};
use crate::address::Address;
use crate::error::Cep18Error;
use crate::events::{record_event_dictionary, recorded, views, Event, EventView, Redeem};
use crate::flags::{flagged, listed_keys, read_flag, set_flags};
use crate::ledger::{Ledger, LedgerView};
use crate::token::{_mint, minted};
use crate::uint::{max_u256, U256};
use vstd::prelude::*;

verus! {

/// Allows or disallows the listed tokens as sources of redemption, on the
/// word of an admin.
pub fn set_redeen_tokens(
    ledger: &mut Ledger,
    caller: Address,
    tokens: Vec<Address>,
    is_supported: bool,
) -> (r: Result<(), Cep18Error>)
    requires
        old(ledger).wf(),
    ensures
        final(ledger).wf(),
        !is_admin(old(ledger)@.badges, caller) ==> r == Err::<(), Cep18Error>(
            Cep18Error::InsufficientRights,
        ) && *final(ledger) == *old(ledger),
        is_admin(old(ledger)@.badges, caller) ==> r == Ok::<(), Cep18Error>(()) && final(ledger)@
            == (LedgerView {
            redeem_tokens: flagged(old(ledger)@.redeem_tokens, listed_keys(tokens@), is_supported),
            ..old(ledger)@
        }),
{
    match admin_check(ledger, caller) {
        Err(e) => Err(e),
        Ok(_) => {
            set_flags(&mut ledger.redeem_tokens, &tokens, is_supported);
            Ok(())
        },
    }
}

/// Lets a redemption pass if its source token is among the redeemable ones.
/// To be asked before the source ledger is told to burn.
pub fn check_redeem_support(ledger: &Ledger, token: Address) -> (r: Result<(), Cep18Error>)
    requires
        ledger.wf(),
    ensures
        r == if ledger@.redeem_tokens.contains(token) {
            Ok::<(), Cep18Error>(())
        } else {
            Err::<(), Cep18Error>(Cep18Error::NotSupportedToken)
        },
{
    if read_flag(&ledger.redeem_tokens, &token) {
        Ok(())
    } else {
        Err(Cep18Error::NotSupportedToken)
    }
}

/// Why a redemption is refused, if it is. The first reason that holds is the
/// one reported; a failure of the burn on the source ledger is this call's
/// own failure.
pub open spec fn redeem_refusal(
    ledger: LedgerView,
    token: Address,
    amount: nat,
    burn_outcome: Result<(), Cep18Error>,
) -> Option<Cep18Error> {
    if !ledger.redeem_tokens.contains(token) {
        Some(Cep18Error::NotSupportedToken)
    } else if burn_outcome is Err {
        Some(burn_outcome->Err_0)
    } else if ledger.total_supply + amount > max_u256() {
        Some(Cep18Error::Overflow)
    } else {
        None
    }
}

/// Takes in `amount` tokens that the caller had on the ledger of `token`,
/// given what came of the burn there: on its success the same amount is
/// minted here for the caller, free of any fee.
pub fn redeem_to_multichain_token(
    ledger: &mut Ledger,
    caller: Address,
    token_package_hash: Address,
    amount: U256,
    burn_outcome: Result<(), Cep18Error>,
) -> (r: Result<Vec<Event>, Cep18Error>)
    requires
        old(ledger).wf(),
    ensures
        final(ledger).wf(),
        match redeem_refusal(old(ledger)@, token_package_hash, amount@, burn_outcome) {
            Some(e) => r == Err::<Vec<Event>, Cep18Error>(e) && *final(ledger) == *old(ledger),
            None => {
                &&& r matches Ok(events)
                &&& views(events@) == recorded(
                    old(ledger)@.events_mode,
                    seq![
                        EventView::Mint { recipient: caller, amount: amount@ },
                        EventView::Redeem {
                            owner: caller,
                            amount: amount@,
                            old_token_package_hash: token_package_hash,
                        },
                    ],
                )
                &&& final(ledger)@ == (LedgerView {
                    balances: minted(
                        old(ledger)@.balances,
                        caller,
                        old(ledger)@.fee_receiver,
                        amount@,
                        0,
                    ),
                    total_supply: old(ledger)@.total_supply + amount@,
                    ..old(ledger)@
                })
            },
        },
{
    match check_redeem_support(ledger, token_package_hash) {
        Err(e) => {
            return Err(e);
        },
        Ok(_) => {},
    }
    match burn_outcome {
        Err(e) => {
            return Err(e);
        },
        Ok(_) => {},
    }
    let mut events: Vec<Event> = match _mint(ledger, caller, U256::zero(), amount) {
        Err(e) => {
            return Err(e);
        },
        Ok(events) => events,
    };
    let event = Event::Redeem(
        Redeem { owner: caller, amount, old_token_package_hash: token_package_hash },
    );
    record_event_dictionary(ledger.events_mode, event, &mut events);
    proof {
        assert(views(events@) =~= recorded(
            ledger.events_mode,
            seq![EventView::Mint { recipient: caller, amount: amount@ }, event@],
        ));
    }
    Ok(events)
}

} // verus!
