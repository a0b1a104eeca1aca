//! The ledger's scalar settings and small records, read and written one at a
//! time. These are building blocks of the operations: they ask for no rights.
use crate::address::Address;
use crate::ledger::{key_set, index_map, Ledger, LedgerView};
use crate::uint::U256;
use vstd::prelude::*;

verus! {

/// Marks a mint id as consumed.
pub fn save_mintids(ledger: &mut Ledger, mintid: String)
    requires
        old(ledger).wf(),
    ensures
        final(ledger).wf(),
        final(ledger)@ == (LedgerView {
            mint_ids: old(ledger)@.mint_ids.insert(mintid@),
            ..old(ledger)@
        }),
{
    let ghost id = mintid@;
    ledger.mint_ids.set(mintid, ());
    proof {
        assert(ledger.mint_ids@ == old(ledger).mint_ids@.insert(id, ()));
        assert(key_set(ledger.mint_ids) =~= key_set(old(ledger).mint_ids).insert(id)) by {
            assert forall|k: Seq<char>|
                ledger.mint_ids.has(k) <==> old(ledger).mint_ids.has(k) || k == id by {
                assert(ledger.mint_ids.has(k) == ledger.mint_ids@.dom().contains(k));
                assert(old(ledger).mint_ids.has(k) == old(ledger).mint_ids@.dom().contains(k));
            }
        }
    }
}

/// Whether a mint id was consumed.
pub fn mint_id_used(ledger: &Ledger, mintid: &String) -> (r: bool)
    requires
        ledger.wf(),
    ensures
        r == ledger@.mint_ids.contains(mintid@),
{
    ledger.mint_ids.get(mintid).is_some()
}

/// What is kept under a mint id: the id itself once it was consumed, the
/// empty text before.
pub fn read_mintids(ledger: &Ledger, mintid: String) -> (r: String)
    requires
        ledger.wf(),
    ensures
        r@ == if ledger@.mint_ids.contains(mintid@) {
            mintid@
        } else {
            Seq::<char>::empty()
        },
{
    if mint_id_used(ledger, &mintid) {
        mintid
    } else {
        String::new()
    }
}

/// Records the index of the request made under an external id.
pub fn save_request_map(ledger: &mut Ledger, unique_id: String, index: U256)
    requires
        old(ledger).wf(),
    ensures
        final(ledger).wf(),
        final(ledger)@ == (LedgerView {
            request_ids: old(ledger)@.request_ids.insert(unique_id@, index@),
            ..old(ledger)@
        }),
{
    let ghost id = unique_id@;
    ledger.request_ids.set(unique_id, index);
    proof {
        assert(ledger.request_ids@ == old(ledger).request_ids@.insert(id, index));
        assert(index_map(ledger.request_ids) =~= index_map(old(ledger).request_ids).insert(
            id,
            index@,
        )) by {
            assert forall|k: Seq<char>|
                ledger.request_ids.has(k) <==> old(ledger).request_ids.has(k) || k == id by {
                assert(ledger.request_ids.has(k) == ledger.request_ids@.dom().contains(k));
                assert(old(ledger).request_ids.has(k) == old(ledger).request_ids@.dom().contains(
                    k,
                ));
            }
            assert forall|k: Seq<char>| ledger.request_ids.has(k) implies (
            #[trigger] ledger.request_ids.at(k))@ == index_map(old(ledger).request_ids).insert(
                id,
                index@,
            )[k] by {
                assert(ledger.request_ids.at(k) == ledger.request_ids@[k]);
                if k != id {
                    assert(old(ledger).request_ids@.dom().contains(k));
                    assert(old(ledger).request_ids.at(k) == old(ledger).request_ids@[k]);
                }
            }
        }
    }
}

/// The index of the request made under an external id, if the id was used.
pub fn read_request_map(ledger: &Ledger, unique_id: &String) -> (r: Option<U256>)
    requires
        ledger.wf(),
    ensures
        match r {
            Some(index) => ledger@.request_ids.dom().contains(unique_id@)
                && ledger@.request_ids[unique_id@] == index@,
            None => !ledger@.request_ids.dom().contains(unique_id@),
        },
{
    match ledger.request_ids.get(unique_id) {
        Some(index) => Some(*index),
        None => None,
    }
}

/// Sets the swap fee.
pub fn save_swap_fee(ledger: &mut Ledger, swap_fee: U256)
    requires
        old(ledger).wf(),
    ensures
        final(ledger).wf(),
        final(ledger)@ == (LedgerView { swap_fee: swap_fee@, ..old(ledger)@ }),
{
    ledger.swap_fee = swap_fee;
}

/// The swap fee.
pub fn read_swap_fee(ledger: &Ledger) -> (r: U256)
    ensures
        r@ == ledger@.swap_fee,
{
    ledger.swap_fee
}

/// Sets the identity that fees are paid to.
pub fn save_fee_receiver(ledger: &mut Ledger, fee_receiver: Address)
    requires
        old(ledger).wf(),
    ensures
        final(ledger).wf(),
        final(ledger)@ == (LedgerView { fee_receiver, ..old(ledger)@ }),
{
    ledger.fee_receiver = fee_receiver;
}

/// The identity that fees are paid to.
pub fn read_fee_receiver(ledger: &Ledger) -> (r: Address)
    ensures
        r == ledger@.fee_receiver,
{
    ledger.fee_receiver
}

/// The identity under which the ledger itself holds locked tokens.
pub fn get_self_key(ledger: &Ledger) -> (r: Address)
    ensures
        r == ledger@.package,
{
    ledger.package
}

/// The index that the next bridge request will get: the number of requests
/// made so far.
pub fn read_request_id(ledger: &Ledger) -> (r: U256)
    ensures
        r@ == ledger@.requests.len(),
{
    U256::from_u64(ledger.requests.len() as u64)
}

/// Takes a message for the host's log. A ledger on its own has no log, and
/// drops it.
pub fn log_msg(_msg: &str) {
}

} // verus!
