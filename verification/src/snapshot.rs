//! Taking a ledger apart into plain values, to be stored, and putting it
//! together again.
use crate::address::Address;
use crate::ledger::{sum_amounts, Ledger, RequestBridgeBackInfo};
use crate::security::{EventsMode, MintPolicy, SecurityBadge};
use crate::table::{key_views, Table};
use crate::uint::U256;
use vstd::prelude::*;

verus! {

/// The records of a ledger as plain values. Each table is a list of keys
/// with the list of their values beside it.
pub struct LedgerParts {
    pub name: String,
    pub symbol: String,
    pub decimals: u8,
    pub package: Address,
    pub events_mode: EventsMode,
    pub mint_burn_enabled: bool,
    pub mint_policy: MintPolicy,
    pub total_supply: U256,
    pub holders: Vec<Address>,
    pub balances: Vec<U256>,
    pub allowance_pairs: Vec<(Address, Address)>,
    pub allowances: Vec<U256>,
    pub badge_holders: Vec<Address>,
    pub badges: Vec<SecurityBadge>,
    pub swap_fee: U256,
    pub fee_receiver: Address,
    pub mint_ids: Vec<String>,
    pub request_ids: Vec<String>,
    pub request_indices: Vec<U256>,
    pub requests: Vec<RequestBridgeBackInfo>,
    pub chains: Vec<U256>,
    pub chain_flags: Vec<bool>,
    pub tokens: Vec<Address>,
    pub token_flags: Vec<bool>,
}

/// Whether the parts make up a ledger: each table has a value for each key
/// and no key twice, the balances add up to the total supply, and each
/// bridge request stands at its own index.
pub open spec fn parts_valid(parts: LedgerParts) -> bool {
    &&& parts.holders@.len() == parts.balances@.len()
    &&& key_views(parts.holders@).no_duplicates()
    &&& parts.allowance_pairs@.len() == parts.allowances@.len()
    &&& key_views(parts.allowance_pairs@).no_duplicates()
    &&& parts.badge_holders@.len() == parts.badges@.len()
    &&& key_views(parts.badge_holders@).no_duplicates()
    &&& key_views(parts.mint_ids@).no_duplicates()
    &&& parts.request_ids@.len() == parts.request_indices@.len()
    &&& key_views(parts.request_ids@).no_duplicates()
    &&& parts.chains@.len() == parts.chain_flags@.len()
    &&& key_views(parts.chains@).no_duplicates()
    &&& parts.tokens@.len() == parts.token_flags@.len()
    &&& key_views(parts.tokens@).no_duplicates()
    &&& sum_amounts(parts.balances@) == parts.total_supply@
    &&& forall|i: int|
        0 <= i < parts.requests@.len() ==> (#[trigger] parts.requests@[i]).index@ == i
}

impl Ledger {
    /// Whether the ledger holds just what the parts hold.
    pub open(crate) spec fn made_of(&self, parts: LedgerParts) -> bool {
        &&& self.name@ == parts.name@
        &&& self.symbol@ == parts.symbol@
        &&& self.decimals == parts.decimals
        &&& self.package == parts.package
        &&& self.events_mode == parts.events_mode
        &&& self.mint_burn_enabled == parts.mint_burn_enabled
        &&& self.mint_policy == parts.mint_policy
        &&& self.total_supply == parts.total_supply
        &&& self.balances.keys() == key_views(parts.holders@)
        &&& self.balances.values() == parts.balances@
        &&& self.allowances.keys() == key_views(parts.allowance_pairs@)
        &&& self.allowances.values() == parts.allowances@
        &&& self.badges.keys() == key_views(parts.badge_holders@)
        &&& self.badges.values() == parts.badges@
        &&& self.swap_fee == parts.swap_fee
        &&& self.fee_receiver == parts.fee_receiver
        &&& self.mint_ids.keys() == key_views(parts.mint_ids@)
        &&& self.request_ids.keys() == key_views(parts.request_ids@)
        &&& self.request_ids.values() == parts.request_indices@
        &&& self.requests@ == parts.requests@
        &&& self.supported_chains.keys() == key_views(parts.chains@)
        &&& self.supported_chains.values() == parts.chain_flags@
        &&& self.redeem_tokens.keys() == key_views(parts.tokens@)
        &&& self.redeem_tokens.values() == parts.token_flags@
    }
}

/// Whether the amounts add up to `total`.
fn adds_up(amounts: &Vec<U256>, total: &U256) -> (r: bool)
    ensures
        r == (sum_amounts(amounts@) == total@),
{
    let mut sum: U256 = U256::zero();
    let mut i: usize = 0;
    proof {
        assert(amounts@.take(0) =~= Seq::<U256>::empty());
    }
    while i < amounts.len()
        invariant
            i <= amounts@.len(),
            sum@ == sum_amounts(amounts@.take(i as int)),
        decreases amounts@.len() - i,
    {
        proof {
            assert(amounts@.take(i + 1).drop_last() =~= amounts@.take(i as int));
            lemma_sum_grows(amounts@, i + 1);
            total.lemma_bounded();
        }
        sum = match sum.checked_add(amounts[i]) {
            Some(next) => next,
            None => {
                return false;
            },
        };
        i += 1;
    }
    proof {
        assert(amounts@.take(amounts@.len() as int) =~= amounts@);
    }
    sum.equals(total)
}

/// The first amounts of a list add up to no more than all of them.
proof fn lemma_sum_grows(amounts: Seq<U256>, n: int)
    requires
        0 <= n <= amounts.len(),
    ensures
        sum_amounts(amounts.take(n)) <= sum_amounts(amounts),
    decreases amounts.len() - n,
{
    if n < amounts.len() {
        lemma_sum_grows(amounts, n + 1);
        assert(amounts.take(n + 1).drop_last() =~= amounts.take(n));
    } else {
        assert(amounts.take(n) =~= amounts);
    }
}

/// Whether each bridge request stands at its own index.
fn indexed(requests: &Vec<RequestBridgeBackInfo>) -> (r: bool)
    ensures
        r == (forall|i: int| 0 <= i < requests@.len() ==> (#[trigger] requests@[i]).index@ == i),
{
    let mut i: usize = 0;
    while i < requests.len()
        invariant
            i <= requests@.len(),
            forall|j: int| 0 <= j < i ==> (#[trigger] requests@[j]).index@ == j,
        decreases requests@.len() - i,
    {
        match requests[i].index.to_usize() {
            Some(index) => {
                if index != i {
                    return false;
                }
            },
            None => {
                return false;
            },
        }
        i += 1;
    }
    true
}

/// As many unit values as there are texts.
fn units_for(texts: &Vec<String>) -> (r: Vec<()>)
    ensures
        r@.len() == texts@.len(),
{
    let mut units: Vec<()> = Vec::new();
    let mut i: usize = 0;
    while i < texts.len()
        invariant
            i <= texts@.len(),
            units@.len() == i,
        decreases texts@.len() - i,
    {
        units.push(());
        i += 1;
    }
    units
}

/// Puts a ledger together from its parts, if they make one up.
pub fn restore(parts: LedgerParts) -> (r: Option<Ledger>)
    ensures
        match r {
            Some(ledger) => parts_valid(parts) && ledger.wf() && ledger.made_of(parts),
            None => !parts_valid(parts),
        },
{
    if !adds_up(&parts.balances, &parts.total_supply) {
        return None;
    }
    if !indexed(&parts.requests) {
        return None;
    }
    let balances: Table<Address, U256> = match Table::from_parts(parts.holders, parts.balances) {
        Some(table) => table,
        None => {
            return None;
        },
    };
    let allowances: Table<(Address, Address), U256> = match Table::from_parts(
        parts.allowance_pairs,
        parts.allowances,
    ) {
        Some(table) => table,
        None => {
            return None;
        },
    };
    let badges: Table<Address, SecurityBadge> = match Table::from_parts(
        parts.badge_holders,
        parts.badges,
    ) {
        Some(table) => table,
        None => {
            return None;
        },
    };
    let units: Vec<()> = units_for(&parts.mint_ids);
    let mint_ids: Table<String, ()> = match Table::from_parts(parts.mint_ids, units) {
        Some(table) => table,
        None => {
            return None;
        },
    };
    let request_ids: Table<String, U256> = match Table::from_parts(
        parts.request_ids,
        parts.request_indices,
    ) {
        Some(table) => table,
        None => {
            return None;
        },
    };
    let supported_chains: Table<U256, bool> = match Table::from_parts(
        parts.chains,
        parts.chain_flags,
    ) {
        Some(table) => table,
        None => {
            return None;
        },
    };
    let redeem_tokens: Table<Address, bool> = match Table::from_parts(
        parts.tokens,
        parts.token_flags,
    ) {
        Some(table) => table,
        None => {
            return None;
        },
    };
    Some(
        Ledger {
            name: parts.name,
            symbol: parts.symbol,
            decimals: parts.decimals,
            package: parts.package,
            events_mode: parts.events_mode,
            mint_burn_enabled: parts.mint_burn_enabled,
            mint_policy: parts.mint_policy,
            total_supply: parts.total_supply,
            balances,
            allowances,
            badges,
            swap_fee: parts.swap_fee,
            fee_receiver: parts.fee_receiver,
            mint_ids,
            request_ids,
            requests: parts.requests,
            supported_chains,
            redeem_tokens,
        },
    )
}

/// Takes a ledger apart.
pub fn into_parts(ledger: Ledger) -> (parts: LedgerParts)
    requires
        ledger.wf(),
    ensures
        parts_valid(parts),
        ledger.made_of(parts),
{
    let (holders, balances) = ledger.balances.into_parts();
    let (allowance_pairs, allowances) = ledger.allowances.into_parts();
    let (badge_holders, badges) = ledger.badges.into_parts();
    let (mint_ids, _) = ledger.mint_ids.into_parts();
    let (request_ids, request_indices) = ledger.request_ids.into_parts();
    let (chains, chain_flags) = ledger.supported_chains.into_parts();
    let (tokens, token_flags) = ledger.redeem_tokens.into_parts();
    LedgerParts {
        name: ledger.name,
        symbol: ledger.symbol,
        decimals: ledger.decimals,
        package: ledger.package,
        events_mode: ledger.events_mode,
        mint_burn_enabled: ledger.mint_burn_enabled,
        mint_policy: ledger.mint_policy,
        total_supply: ledger.total_supply,
        holders,
        balances,
        allowance_pairs,
        allowances,
        badge_holders,
        badges,
        swap_fee: ledger.swap_fee,
        fee_receiver: ledger.fee_receiver,
        mint_ids,
        request_ids,
        request_indices,
        requests: ledger.requests,
        chains,
        chain_flags,
        tokens,
        token_flags,
    }
}

/// The parts fix the ledger: two ledgers made of the same parts are in the
/// same state. So a ledger that was taken apart and put together again is as
/// it was.
pub proof fn law_parts_fix_the_ledger(first: Ledger, second: Ledger, parts: LedgerParts)
    requires
        first.made_of(parts),
        second.made_of(parts),
    ensures
        first@ == second@,
{
    assert(first@.balances =~= second@.balances);
    assert(first@.allowances =~= second@.allowances);
    assert(first@.badges =~= second@.badges);
    assert(first@.mint_ids =~= second@.mint_ids);
    assert(first@.request_ids =~= second@.request_ids);
    assert(first@.supported_chains =~= second@.supported_chains);
    assert(first@.redeem_tokens =~= second@.redeem_tokens);
}

} // verus!
