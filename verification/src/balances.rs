//! Balances: reading them, writing them, and moving tokens between them.
use crate::address::Address;
use crate::error::Cep18Error;
use crate::ledger::{amount_at, amount_map, sum_amounts, Ledger, LedgerView};
use crate::table::{Table, TableKey};
use crate::uint::U256;
use vstd::prelude::*;

verus! {

/// Adding an amount at the end adds it to the sum.
pub proof fn lemma_sum_push(amounts: Seq<U256>, amount: U256)
    ensures
        sum_amounts(amounts.push(amount)) == sum_amounts(amounts) + amount@,
{
    assert(amounts.push(amount).drop_last() =~= amounts);
}

/// Replacing one amount changes the sum by the difference.
pub proof fn lemma_sum_update(amounts: Seq<U256>, i: int, amount: U256)
    requires
        0 <= i < amounts.len(),
    ensures
        sum_amounts(amounts.update(i, amount)) == sum_amounts(amounts) - amounts[i]@ + amount@,
    decreases amounts.len(),
{
    let updated = amounts.update(i, amount);
    if i == amounts.len() - 1 {
        assert(updated.drop_last() =~= amounts.drop_last());
    } else {
        lemma_sum_update(amounts.drop_last(), i, amount);
        assert(updated.drop_last() =~= amounts.drop_last().update(i, amount));
    }
}

/// No amount exceeds the sum.
pub proof fn lemma_sum_bound(amounts: Seq<U256>, i: int)
    requires
        0 <= i < amounts.len(),
    ensures
        amounts[i]@ <= sum_amounts(amounts),
    decreases amounts.len(),
{
    if i < amounts.len() - 1 {
        lemma_sum_bound(amounts.drop_last(), i);
    }
}

/// No two amounts together exceed the sum.
pub proof fn lemma_sum_bound_two(amounts: Seq<U256>, i: int, j: int)
    requires
        0 <= i < amounts.len(),
        0 <= j < amounts.len(),
        i != j,
    ensures
        amounts[i]@ + amounts[j]@ <= sum_amounts(amounts),
    decreases amounts.len(),
{
    let last = amounts.len() - 1;
    if i == last {
        lemma_sum_bound(amounts.drop_last(), j);
    } else if j == last {
        lemma_sum_bound(amounts.drop_last(), i);
    } else {
        lemma_sum_bound_two(amounts.drop_last(), i, j);
    }
}

/// The balances after `amount` has left `sender` and then reached
/// `recipient`. Where the two are one identity, nothing has changed.
pub open spec fn moved(
    balances: Map<Address, nat>,
    sender: Address,
    recipient: Address,
    amount: nat,
) -> Map<Address, nat> {
    let debited = balances.insert(sender, (balances[sender] - amount) as nat);
    debited.insert(recipient, debited[recipient] + amount)
}

/// The balance of `address`: zero where it never held tokens.
pub fn read_balance_from(ledger: &Ledger, address: Address) -> (r: U256)
    requires
        ledger.wf(),
    ensures
        r@ == ledger@.balances[address],
{
    read_amount(&ledger.balances, &address)
}

/// Sets the amount that a table holds for a key, and says what that does to
/// the sum of its amounts.
pub(crate) fn write_amount<K: TableKey>(table: &mut Table<K, U256>, key: K, amount: U256)
    requires
        old(table).wf(),
    ensures
        final(table).wf(),
        amount_map(*final(table)) == amount_map(*old(table)).insert(key@, amount@),
        sum_amounts(final(table).values()) == sum_amounts(old(table).values()) - amount_at(
            *old(table),
            key@,
        ) + amount@,
{
    let ghost k = key@;
    proof {
        if old(table).has(k) {
            let i = old(table).keys().index_of(k);
            lemma_sum_update(old(table).values(), i, amount);
        } else {
            lemma_sum_push(old(table).values(), amount);
        }
    }
    table.set(key, amount);
    proof {
        assert(amount_map(*table) =~= amount_map(*old(table)).insert(k, amount@)) by {
            assert forall|a: K::V|
                amount_at(*table, a) == #[trigger] amount_map(*old(table)).insert(k, amount@)[a] by {
                assert(table@ == old(table)@.insert(k, amount));
                assert(table.has(a) == table@.dom().contains(a));
                assert(old(table).has(a) == old(table)@.dom().contains(a));
                if table.has(a) {
                    assert(table.at(a) == table@[a]);
                }
                if old(table).has(a) {
                    assert(old(table).at(a) == old(table)@[a]);
                }
            }
        }
    }
}

/// The amount that a table holds for a key: zero where it has no entry.
pub(crate) fn read_amount<K: TableKey>(table: &Table<K, U256>, key: &K) -> (r: U256)
    requires
        table.wf(),
    ensures
        r@ == amount_at(*table, key@),
{
    match table.get(key) {
        Some(amount) => *amount,
        None => U256::zero(),
    }
}

/// Sets one balance. The sum of all balances moves by the difference.
pub(crate) fn write_balance_to(balances: &mut Table<Address, U256>, address: Address, amount: U256)
    requires
        old(balances).wf(),
    ensures
        final(balances).wf(),
        amount_map(*final(balances)) == amount_map(*old(balances)).insert(address, amount@),
        sum_amounts(final(balances).values()) == sum_amounts(old(balances).values()) - amount_at(
            *old(balances),
            address,
        ) + amount@,
{
    write_amount(balances, address, amount);
}

/// No balance exceeds the sum of all balances.
pub proof fn lemma_balance_bound(balances: Table<Address, U256>, address: Address)
    requires
        balances.wf(),
    ensures
        amount_at(balances, address) <= sum_amounts(balances.values()),
{
    if balances.has(address) {
        let i = balances.keys().index_of(address);
        lemma_sum_bound(balances.values(), i);
    }
}

/// Moves `amount` from the balance of `sender` to that of `recipient`. A
/// building block of the operations: it asks for no rights, and it lets the
/// two be one identity, in which case nothing moves.
pub fn transfer_balance(ledger: &mut Ledger, sender: Address, recipient: Address, amount: U256) -> (r:
    Result<(), Cep18Error>)
    requires
        old(ledger).wf(),
    ensures
        final(ledger).wf(),
        old(ledger)@.balances[sender] < amount@ ==> r == Err::<(), Cep18Error>(
            Cep18Error::InsufficientBalance,
        ) && *final(ledger) == *old(ledger),
        old(ledger)@.balances[sender] >= amount@ ==> r == Ok::<(), Cep18Error>(())
            && final(ledger)@ == (LedgerView {
            balances: moved(old(ledger)@.balances, sender, recipient, amount@),
            ..old(ledger)@
        }),
{
    let sender_balance: U256 = read_balance_from(ledger, sender);
    match sender_balance.checked_sub(amount) {
        None => Err(Cep18Error::InsufficientBalance),
        Some(new_sender_balance) => {
            write_balance_to(&mut ledger.balances, sender, new_sender_balance);
            let recipient_balance: U256 = read_amount(&ledger.balances, &recipient);
            proof {
                lemma_balance_bound(ledger.balances, recipient);
                ledger.total_supply.lemma_bounded();
            }
            match recipient_balance.checked_add(amount) {
                None => {
                    // No balance exceeds the total supply, and the amount was
                    // part of it a moment ago.
                    proof {
                        assert(false);
                    }
                    Err(Cep18Error::Overflow)
                },
                Some(new_recipient_balance) => {
                    write_balance_to(&mut ledger.balances, recipient, new_recipient_balance);
                    Ok(())
                },
            }
        },
    }
}

} // verus!
