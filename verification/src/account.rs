//! The accounts that an operation touches, as plain values: the wallets of
//! the parties and the slot that holds a record and the lamports behind it.

use vstd::prelude::*;
use crate::address::Address;
use crate::error::EscrowError;
use crate::pda::{derive_escrow_address, escrow_address_with_bump, made_view};
use crate::record::Escrow;

verus! {

/// The balance of one party.
#[derive(Clone, Copy, Debug, PartialEq, Eq)]
pub struct Wallet {
    /// Whose balance it is.
    pub key: Address,
    /// What the party holds.
    pub lamports: u64,
}

/// The storage slot of one escrow: its address, the lamports it holds, and
/// the record, if there is one. A slot without a record is vacant
/// ([`EscrowAccount::is_vacant`]). Opening an escrow fills a vacant slot and
/// leaves it open ([`EscrowAccount::is_open`]); settling the escrow leaves it
/// vacant again.
#[derive(Clone, Copy, Debug, PartialEq, Eq)]
pub struct EscrowAccount {
    /// Where the slot sits.
    pub address: Address,
    /// What the slot holds: the escrowed amount and the storage deposit.
    pub lamports: u64,
    /// The record, from the opening of the escrow to its settlement.
    pub record: Option<Escrow>,
}

impl EscrowAccount {
    /// The address to which the keys and the bump seed of the record lead
    /// under the program `program_id`; `None` where they lead to none, or
    /// where the slot holds no record.
    pub open spec fn derived(self, program_id: Seq<u8>) -> Option<Seq<u8>> {
        match self.record {
            Some(record) => escrow_address_with_bump(
                program_id,
                record@.sender,
                record@.recipient,
                record@.escrow_id,
                record@.bump,
            ),
            None => None,
        }
    }

    /// Derives again the address at which the record must sit.
    pub fn derive_address(&self, program_id: &Address) -> (made: Option<Address>)
        ensures
            made_view(made) == self.derived(program_id@),
    {
        match self.record {
            Some(record) => derive_escrow_address(
                program_id,
                &record.sender(),
                &record.recipient(),
                record.escrow_id(),
                record.bump(),
            ),
            None => None,
        }
    }

    /// The state of a slot between opening and settlement under the program
    /// `program_id`: it holds a record for a positive amount, at least that
    /// amount in lamports, and sits at the address to which the record's own
    /// keys and bump seed lead.
    pub open spec fn is_open(self, program_id: Seq<u8>) -> bool {
        &&& self.record matches Some(record)
        &&& record@.amount > 0
        &&& self.lamports >= record@.amount
        &&& self.derived(program_id) == Some(self.address@)
    }

    /// Tests [`EscrowAccount::is_open`].
    pub fn check_open(&self, program_id: &Address) -> (open: bool)
        ensures
            open == self.is_open(program_id@),
    {
        match self.record {
            Some(record) => {
                let backed = self.lamports >= record.amount();
                match self.derive_address(program_id) {
                    Some(address) => backed && address == self.address,
                    None => false,
                }
            },
            None => false,
        }
    }

    /// The state of a slot before an escrow is opened in it and after the
    /// escrow was settled: it holds no record.
    pub open spec fn is_vacant(self) -> bool {
        self.record is None
    }

    /// Closes the slot: all that it still holds goes to `destination`, and
    /// the record is removed. The two balances are balances of one ledger:
    /// together they fit in a `u64`.
    pub fn close(&mut self, destination: &mut u64)
        requires
            old(self).lamports + *old(destination) <= u64::MAX,
        ensures
            final(self).address == old(self).address,
            final(self).lamports == 0,
            final(self).record is None,
            *final(destination) == *old(destination) + old(self).lamports,
    {
        *destination = *destination + self.lamports;
        self.lamports = 0;
        self.record = None;
    }

    /// What an open slot holds beyond the escrowed amount: the deposit that
    /// goes back to the sender at settlement.
    pub open spec fn deposit(self) -> int
        recommends
            self.record is Some,
    {
        self.lamports - self.record->Some_0@.amount
    }
}

/// Moves `amount` lamports from one balance to another, or nothing at all.
/// It is refused where `from` holds less than `amount`. The two balances are
/// balances of one ledger: together they fit in a `u64`.
pub fn transfer(from: &mut u64, to: &mut u64, amount: u64) -> (moved: Result<(), EscrowError>)
    requires
        *old(from) + *old(to) <= u64::MAX,
    ensures
        *old(from) < amount ==> moved == Err::<(), EscrowError>(EscrowError::InsufficientFunds)
            && *final(from) == *old(from) && *final(to) == *old(to),
        *old(from) >= amount ==> moved is Ok && *final(from) == *old(from) - amount && *final(to)
            == *old(to) + amount,
{
    if *from < amount {
        return Err(EscrowError::InsufficientFunds);
    }
    *from = *from - amount;
    *to = *to + amount;
    Ok(())
}

} // verus!
