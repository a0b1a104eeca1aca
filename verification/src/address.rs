//! Identities: who holds a balance and who makes a call.
use crate::error::Cep18Error;
use vstd::prelude::*;

verus! {

/// What an identity names.
#[derive(Clone, Copy, Debug, PartialEq, Eq, Structural)]
pub enum AddressKind {
    /// A user account, named by its account hash.
    Account,
    /// A contract, named by the hash of its package.
    Contract,
}

/// An account or a contract: the key of every per-identity record.
#[derive(Clone, Copy, Debug, PartialEq, Eq)]
pub struct Address {
    pub kind: AddressKind,
    pub bytes: [u8; 32],
}

impl View for Address {
    type V = Address;

    open spec fn view(&self) -> Address {
        *self
    }
}

impl Address {
    /// The identity of the account with the given account hash.
    pub fn account(bytes: [u8; 32]) -> (r: Address)
        ensures
            r == (Address { kind: AddressKind::Account, bytes }),
    {
        Address { kind: AddressKind::Account, bytes }
    }

    /// Whether the two identities are the same.
    pub fn equals(&self, other: &Address) -> (r: bool)
        ensures
            r == (*self == *other),
    {
        match (self.kind, other.kind) {
            (AddressKind::Account, AddressKind::Account) => {},
            (AddressKind::Contract, AddressKind::Contract) => {},
            _ => {
                return false;
            },
        }
        let mut i: usize = 0;
        while i < 32
            invariant
                i <= 32,
                self.kind == other.kind,
                forall|j: int| 0 <= j < i ==> self.bytes@[j] == other.bytes@[j],
            decreases 32 - i,
        {
            if self.bytes[i] != other.bytes[i] {
                return false;
            }
            i += 1;
        }
        assert(self.bytes@ =~= other.bytes@);
        assert(self.bytes == other.bytes);
        true
    }

    /// The identity of the contract with the given package hash.
    pub fn contract(bytes: [u8; 32]) -> (r: Address)
        ensures
            r == (Address { kind: AddressKind::Contract, bytes }),
    {
        Address { kind: AddressKind::Contract, bytes }
    }
}

/// One frame of the chain of calls that led to the running operation.
#[derive(Clone, Copy, Debug)]
pub enum CallStackElement {
    /// Session code run by an account.
    Session { account_hash: [u8; 32] },
    /// Stored session code, which acts in the account's name.
    StoredSession { account_hash: [u8; 32], contract_package_hash: [u8; 32], contract_hash: [u8; 32] },
    /// A stored contract.
    StoredContract { contract_package_hash: [u8; 32], contract_hash: [u8; 32] },
}

/// The identity that a call frame acts as: the account for both kinds of
/// session code, the contract package for a stored contract.
pub open spec fn frame_address(element: CallStackElement) -> Address {
    match element {
        CallStackElement::Session { account_hash } => Address {
            kind: AddressKind::Account,
            bytes: account_hash,
        },
        CallStackElement::StoredSession { account_hash, .. } => Address {
            kind: AddressKind::Account,
            bytes: account_hash,
        },
        CallStackElement::StoredContract { contract_package_hash, .. } => Address {
            kind: AddressKind::Contract,
            bytes: contract_package_hash,
        },
    }
}

/// The immediate caller that a call chain names: the frame just outside the
/// innermost one, if the chain has two frames at least.
pub open spec fn immediate_caller(call_stack: Seq<CallStackElement>) -> Option<Address> {
    if call_stack.len() >= 2 {
        Some(frame_address(call_stack[call_stack.len() - 2]))
    } else {
        None
    }
}

/// The identity that a call frame acts as.
pub fn call_stack_element_to_address(call_stack_element: CallStackElement) -> (r: Address)
    ensures
        r == frame_address(call_stack_element),
{
    match call_stack_element {
        CallStackElement::Session { account_hash } => Address::account(account_hash),
        CallStackElement::StoredSession { account_hash, .. } => Address::account(account_hash),
        CallStackElement::StoredContract { contract_package_hash, .. } => Address::contract(
            contract_package_hash,
        ),
    }
}

/// The identity of the immediate caller. The frame that started the chain is
/// passed over on purpose, so that a contract in the middle cannot act for the
/// user who started it.
pub fn get_immediate_caller_address(call_stack: &Vec<CallStackElement>) -> (r: Result<
    Address,
    Cep18Error,
>)
    ensures
        r == match immediate_caller(call_stack@) {
            Some(caller) => Ok::<Address, Cep18Error>(caller),
            None => Err::<Address, Cep18Error>(Cep18Error::InvalidContext),
        },
{
    let n: usize = call_stack.len();
    if n < 2 {
        Err(Cep18Error::InvalidContext)
    } else {
        Ok(call_stack_element_to_address(call_stack[n - 2]))
    }
}

} // verus!
