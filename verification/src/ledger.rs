//! The ledger instance: every record of the token in one value.
use crate::address::Address;
use crate::security::{EventsMode, MintPolicy, SecurityBadge};
use crate::table::{Table, TableKey};
use crate::uint::U256;
use vstd::prelude::*;

verus! {

/// A bridge request, as it is kept from the time its amount is locked.
#[derive(Debug, PartialEq, Eq)]
pub struct RequestBridgeBackInfo {
    /// Who asked, and whose tokens are locked.
    pub owner: Address,
    /// The locked amount.
    pub amount: U256,
    /// The swap fee at the time of the request.
    pub fee: U256,
    /// The index of the request.
    pub index: U256,
    /// Where the tokens are to go on the destination chain.
    pub receiver_address: String,
    /// The destination chain.
    pub to_chainid: U256,
    /// The external id under which the request was made.
    pub id: String,
}

/// What a bridge request says.
pub ghost struct RequestView {
    pub owner: Address,
    pub amount: nat,
    pub fee: nat,
    pub index: nat,
    pub receiver_address: Seq<char>,
    pub to_chainid: nat,
    pub id: Seq<char>,
}

impl View for RequestBridgeBackInfo {
    type V = RequestView;

    open spec fn view(&self) -> RequestView {
        RequestView {
            owner: self.owner,
            amount: self.amount@,
            fee: self.fee@,
            index: self.index@,
            receiver_address: self.receiver_address@,
            to_chainid: self.to_chainid@,
            id: self.id@,
        }
    }
}

/// The state of a ledger, as the contracts of its operations speak of it.
pub ghost struct LedgerView {
    pub name: Seq<char>,
    pub symbol: Seq<char>,
    pub decimals: u8,
    /// The identity under which the ledger itself holds locked tokens.
    pub package: Address,
    pub events_mode: EventsMode,
    pub mint_burn_enabled: bool,
    pub mint_policy: MintPolicy,
    pub total_supply: nat,
    /// The balance of every identity; zero for one that never held tokens.
    pub balances: Map<Address, nat>,
    /// What each spender may still move out of each owner's balance, by
    /// owner and spender; zero where nothing was granted.
    pub allowances: Map<(Address, Address), nat>,
    /// The badge of each identity that has one.
    pub badges: Map<Address, SecurityBadge>,
    pub swap_fee: nat,
    pub fee_receiver: Address,
    /// The mint ids that were consumed.
    pub mint_ids: Set<Seq<char>>,
    /// The external request ids that were used, each with the index of its
    /// request.
    pub request_ids: Map<Seq<char>, nat>,
    /// The bridge requests, each at its index.
    pub requests: Seq<RequestView>,
    /// The chains that bridge requests may name.
    pub supported_chains: Set<nat>,
    /// The tokens that may be redeemed into this one.
    pub redeem_tokens: Set<Address>,
}

/// One ledger instance.
pub struct Ledger {
    pub(crate) name: String,
    pub(crate) symbol: String,
    pub(crate) decimals: u8,
    pub(crate) package: Address,
    pub(crate) events_mode: EventsMode,
    pub(crate) mint_burn_enabled: bool,
    pub(crate) mint_policy: MintPolicy,
    pub(crate) total_supply: U256,
    pub(crate) balances: Table<Address, U256>,
    pub(crate) allowances: Table<(Address, Address), U256>,
    pub(crate) badges: Table<Address, SecurityBadge>,
    pub(crate) swap_fee: U256,
    pub(crate) fee_receiver: Address,
    pub(crate) mint_ids: Table<String, ()>,
    pub(crate) request_ids: Table<String, U256>,
    pub(crate) requests: Vec<RequestBridgeBackInfo>,
    pub(crate) supported_chains: Table<U256, bool>,
    pub(crate) redeem_tokens: Table<Address, bool>,
}

/// The amount that a table of amounts holds for a key: zero where it has no
/// entry.
pub open spec fn amount_at<K: TableKey>(table: Table<K, U256>, key: K::V) -> nat {
    match table.lookup(key) {
        Some(amount) => amount@,
        None => 0,
    }
}

/// Whether a table of flags holds a raised flag for a key.
pub open spec fn flag_at<K: TableKey>(table: Table<K, bool>, key: K::V) -> bool {
    table.lookup(key) == Some(true)
}

/// The amounts of a table as a map that holds zero for every absent key.
pub open spec fn amount_map<K: TableKey>(table: Table<K, U256>) -> Map<K::V, nat> {
    Map::total(|key: K::V| amount_at(table, key))
}

/// The keys for which a table of flags holds a raised flag.
pub open spec fn flag_set<K: TableKey>(table: Table<K, bool>) -> Set<K::V> {
    Set::new(|key: K::V| flag_at(table, key))
}

/// The keys of a table.
pub open spec fn key_set<K: TableKey, V>(table: Table<K, V>) -> Set<K::V> {
    Set::new(|key: K::V| table.has(key))
}

/// The external request ids of a table, each with the number of its index.
pub open spec fn index_map(table: Table<String, U256>) -> Map<Seq<char>, nat> {
    Map::new(|id: Seq<char>| table.has(id), |id: Seq<char>| table.at(id)@)
}

/// What a list of bridge requests says, one by one.
pub open spec fn request_views(requests: Seq<RequestBridgeBackInfo>) -> Seq<RequestView> {
    Seq::new(requests.len(), |i: int| requests[i]@)
}

/// The sum of a sequence of amounts.
pub open spec fn sum_amounts(amounts: Seq<U256>) -> nat
    decreases amounts.len(),
{
    if amounts.len() == 0 {
        0
    } else {
        sum_amounts(amounts.drop_last()) + amounts.last()@
    }
}

impl Ledger {
    /// The state of the ledger.
    pub open(crate) spec fn view(&self) -> LedgerView {
        LedgerView {
            name: self.name@,
            symbol: self.symbol@,
            decimals: self.decimals,
            package: self.package,
            events_mode: self.events_mode,
            mint_burn_enabled: self.mint_burn_enabled,
            mint_policy: self.mint_policy,
            total_supply: self.total_supply@,
            balances: amount_map(self.balances),
            allowances: amount_map(self.allowances),
            badges: self.badges@,
            swap_fee: self.swap_fee@,
            fee_receiver: self.fee_receiver,
            mint_ids: key_set(self.mint_ids),
            request_ids: index_map(self.request_ids),
            requests: request_views(self.requests@),
            supported_chains: flag_set(self.supported_chains),
            redeem_tokens: flag_set(self.redeem_tokens),
        }
    }

    /// The identities that hold, or have held, tokens, each once.
    pub open(crate) spec fn holders(&self) -> Seq<Address> {
        self.balances.keys()
    }

    /// The sum of all balances.
    pub open(crate) spec fn balance_sum(&self) -> nat {
        sum_amounts(self.balances.values())
    }

    /// Conservation: the balances add up to the total supply.
    pub open(crate) spec fn conserved(&self) -> bool {
        self.balance_sum() == self.total_supply@
    }

    /// A ledger is well formed when its tables are, its balances add up to
    /// the total supply, and each bridge request stands at its own index.
    pub open(crate) spec fn wf(&self) -> bool {
        &&& self.balances.wf()
        &&& self.allowances.wf()
        &&& self.badges.wf()
        &&& self.mint_ids.wf()
        &&& self.request_ids.wf()
        &&& self.supported_chains.wf()
        &&& self.redeem_tokens.wf()
        &&& self.conserved()
        &&& forall|i: int|
            0 <= i < self.requests@.len() ==> (#[trigger] self.requests@[i]).index@ == i
    }
}

} // verus!
