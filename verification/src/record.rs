//! The escrow record: what one open escrow remembers.

use vstd::prelude::*;
use crate::address::Address;
use crate::error::EscrowError;

verus! {

/// What a record says, as plain mathematical values.
pub struct EscrowView {
    /// The party who locked the funds.
    pub sender: Seq<u8>,
    /// The party for whom they are locked.
    pub recipient: Seq<u8>,
    /// The lamports locked.
    pub amount: u64,
    /// Tells apart the escrows of one sender for one recipient.
    pub escrow_id: u64,
    /// When the record was written. Nothing decides on it.
    pub created_at: i64,
    /// The bump seed with which the record's address was found.
    pub bump: u8,
}

/// One open escrow. A record is written once: it has no setters, and its
/// amount is never zero.
#[derive(Clone, Copy, Debug, PartialEq, Eq)]
pub struct Escrow {
    sender: Address,
    recipient: Address,
    amount: u64,
    escrow_id: u64,
    created_at: i64,
    bump: u8,
}

impl View for Escrow {
    type V = EscrowView;

    closed spec fn view(&self) -> EscrowView {
        EscrowView {
            sender: self.sender@,
            recipient: self.recipient@,
            amount: self.amount,
            escrow_id: self.escrow_id,
            created_at: self.created_at,
            bump: self.bump,
        }
    }
}

impl Escrow {
    #[verifier::type_invariant]
    spec fn holds_funds(self) -> bool {
        self.amount > 0
    }

    /// Writes a record. A record for zero lamports is refused.
    pub fn new(
        sender: Address,
        recipient: Address,
        amount: u64,
        escrow_id: u64,
        created_at: i64,
        bump: u8,
    ) -> (made: Result<Escrow, EscrowError>)
        ensures
            amount == 0 ==> made == Err::<Escrow, EscrowError>(EscrowError::InvalidAmount),
            amount > 0 ==> made is Ok && made->Ok_0@ == (EscrowView {
                sender: sender@,
                recipient: recipient@,
                amount,
                escrow_id,
                created_at,
                bump,
            }),
    {
        if amount == 0 {
            return Err(EscrowError::InvalidAmount);
        }
        Ok(Escrow { sender, recipient, amount, escrow_id, created_at, bump })
    }

    /// The party who locked the funds.
    pub fn sender(&self) -> (a: Address)
        ensures
            a@ == self@.sender,
    {
        self.sender
    }

    /// The party for whom the funds are locked.
    pub fn recipient(&self) -> (a: Address)
        ensures
            a@ == self@.recipient,
    {
        self.recipient
    }

    /// The lamports locked: never zero.
    pub fn amount(&self) -> (n: u64)
        ensures
            n == self@.amount,
            n > 0,
    {
        proof {
            use_type_invariant(self);
        }
        self.amount
    }

    /// The number that tells this escrow from the others of the same pair.
    pub fn escrow_id(&self) -> (n: u64)
        ensures
            n == self@.escrow_id,
    {
        self.escrow_id
    }

    /// When the record was written.
    pub fn created_at(&self) -> (t: i64)
        ensures
            t == self@.created_at,
    {
        self.created_at
    }

    /// The bump seed with which the record's address was found.
    pub fn bump(&self) -> (b: u8)
        ensures
            b == self@.bump,
    {
        self.bump
    }

    /// Two records that say the same are the same record.
    pub proof fn lemma_view_injective(a: Escrow, b: Escrow)
        requires
            a@ == b@,
        ensures
            a == b,
    {
        Address::lemma_view_injective(a.sender, b.sender);
        Address::lemma_view_injective(a.recipient, b.recipient);
    }
}

} // verus!
