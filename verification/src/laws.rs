//! What holds of the ledger across its operations.
use crate::access::is_admin;
use crate::address::Address;
use crate::balances::{lemma_balance_bound, lemma_sum_bound_two};
use crate::bridge::{after_request, request_refusal, settle_refusal, well_formed_id};
use crate::error::Cep18Error;
use crate::hextext::{hex_text, lemma_hex_text_is_hex};
use crate::ledger::{sum_amounts, Ledger, LedgerView};
use crate::security::{may_mint, SecurityBadge};
use crate::table::lemma_place;
use crate::token::{after_mint, mint_refusal};
use crate::uint::max_u256;
use vstd::prelude::*;

verus! {

/// The sum of the balances of the listed identities.
pub open spec fn sum_over(holders: Seq<Address>, balances: Map<Address, nat>) -> nat
    decreases holders.len(),
{
    if holders.len() == 0 {
        0
    } else {
        sum_over(holders.drop_last(), balances) + balances[holders.last()]
    }
}

/// The balances of the first `n` holders add up to the first `n` amounts of
/// the table of balances.
proof fn lemma_sum_prefix(ledger: Ledger, n: int)
    requires
        ledger.wf(),
        0 <= n <= ledger.holders().len(),
    ensures
        sum_over(ledger.holders().take(n), ledger@.balances) == sum_amounts(
            ledger.balances.values().take(n),
        ),
    decreases n,
{
    if n > 0 {
        lemma_sum_prefix(ledger, n - 1);
        lemma_place(ledger.holders(), n - 1);
        assert(ledger.holders().take(n).drop_last() =~= ledger.holders().take(n - 1));
        assert(ledger.balances.values().take(n).drop_last() =~= ledger.balances.values().take(
            n - 1,
        ));
        assert(ledger@.balances[ledger.holders()[n - 1]] == ledger.balances.values()[n - 1]@);
    }
}

/// Conservation. In a well-formed ledger, and so after every operation, the
/// balances add up to the total supply: the holders are finitely many, each
/// listed once, nobody else has a balance, and the sum of the holders'
/// balances is the total supply.
pub proof fn law_conservation(ledger: Ledger)
    requires
        ledger.wf(),
    ensures
        ledger.holders().no_duplicates(),
        forall|a: Address| !ledger.holders().contains(a) ==> #[trigger] ledger@.balances[a] == 0,
        sum_over(ledger.holders(), ledger@.balances) == ledger@.total_supply,
{
    let n = ledger.holders().len() as int;
    lemma_sum_prefix(ledger, n);
    assert(ledger.holders().take(n) =~= ledger.holders());
    assert(ledger.balances.values().take(n) =~= ledger.balances.values());
}

/// No balance exceeds the total supply, and no two balances together do.
pub proof fn law_balances_within_supply(ledger: Ledger, a: Address, b: Address)
    requires
        ledger.wf(),
        a != b,
    ensures
        ledger@.balances[a] <= ledger@.total_supply,
        ledger@.balances[a] + ledger@.balances[b] <= ledger@.total_supply,
        ledger@.total_supply <= max_u256(),
{
    lemma_balance_bound(ledger.balances, a);
    lemma_balance_bound(ledger.balances, b);
    ledger.total_supply.lemma_bounded();
    if ledger.balances.has(a) && ledger.balances.has(b) {
        let i = ledger.balances.keys().index_of(a);
        let j = ledger.balances.keys().index_of(b);
        lemma_sum_bound_two(ledger.balances.values(), i, j);
    }
}

/// Each bridge request stands at its own index, counted from zero in the
/// order in which the requests were made.
pub proof fn law_requests_are_indexed(ledger: Ledger, i: int)
    requires
        ledger.wf(),
        0 <= i < ledger@.requests.len(),
    ensures
        ledger@.requests[i].index == i,
{
    assert(ledger@.requests[i] == ledger.requests@[i]@);
}

/// A mint id serves once. After a mint has gone through, a second mint under
/// the same id by the same caller is refused as a repeat, whatever its
/// amount, its fee and its recipient.
pub proof fn law_mint_id_serves_once(
    before: LedgerView,
    caller: Address,
    recipient: Address,
    amount: nat,
    swap_fee: nat,
    mintid: Seq<char>,
    second_amount: nat,
    second_swap_fee: nat,
)
    requires
        mint_refusal(before, caller, amount, swap_fee, mintid) is None,
    ensures
        mint_refusal(
            after_mint(before, recipient, amount, swap_fee, mintid),
            caller,
            second_amount,
            second_swap_fee,
            mintid,
        ) == Some(Cep18Error::AlreadyMint),
{
}

/// An external request id serves once. After a bridge request has gone
/// through, a second request under the same id, to the same chain and with
/// the same fee, is refused as a repeat, whoever makes it and for whatever
/// amount.
pub proof fn law_request_id_serves_once(
    before: LedgerView,
    caller: Address,
    amount: nat,
    fee: nat,
    to_chainid: nat,
    id: Seq<char>,
    receiver_address: Seq<char>,
    second_caller: Address,
    second_amount: nat,
)
    requires
        request_refusal(before, caller, amount, fee, to_chainid, id) is None,
    ensures
        request_refusal(
            after_request(before, caller, amount, fee, to_chainid, id, receiver_address),
            second_caller,
            second_amount,
            fee,
            to_chainid,
            id,
        ) == Some(Cep18Error::RequestIdExist),
{
}

/// Role gating. An identity without a badge, or with the badge of those
/// stripped of their rights, is no admin, so that every operation of the
/// admins turns it away for want of rights: so does the settlement of a
/// bridge request, and so does, where minting is switched on, a mint under
/// any policy.
pub proof fn law_no_badge_no_rights(
    ledger: LedgerView,
    caller: Address,
    amount: nat,
    swap_fee: nat,
    mintid: Seq<char>,
    request_id: nat,
    fee: nat,
)
    requires
        !ledger.badges.dom().contains(caller) || ledger.badges[caller] == SecurityBadge::NoRights,
    ensures
        !is_admin(ledger.badges, caller),
        settle_refusal(ledger, caller, request_id, fee) == Some(Cep18Error::InsufficientRights),
        ledger.mint_burn_enabled ==> mint_refusal(ledger, caller, amount, swap_fee, mintid)
            == Some(Cep18Error::InsufficientRights),
{
}

/// Role gating, the other way round. Where minting is switched on, a caller
/// whose badge the policy accepts mints whenever the mint id is fresh, the
/// fee is the configured one and no more than the amount, and the total
/// supply has room for the amount.
pub proof fn law_badge_holder_mints(
    ledger: LedgerView,
    caller: Address,
    amount: nat,
    swap_fee: nat,
    mintid: Seq<char>,
)
    requires
        ledger.mint_burn_enabled,
        ledger.badges.dom().contains(caller),
        may_mint(ledger.mint_policy, ledger.badges[caller]),
        !ledger.mint_ids.contains(mintid),
        swap_fee == ledger.swap_fee,
        swap_fee <= amount,
        ledger.total_supply + amount <= max_u256(),
    ensures
        mint_refusal(ledger, caller, amount, swap_fee, mintid) is None,
{
}

/// The storage key of an identity has the form of an external request id:
/// sixty-four hexadecimal digits.
pub proof fn law_storage_keys_are_well_formed(hash: Address)
    ensures
        well_formed_id(hex_text(hash.bytes@)),
{
    lemma_hex_text_is_hex(hash.bytes@);
}

} // verus!
