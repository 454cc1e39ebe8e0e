//! Why an escrow operation is refused.

use vstd::prelude::*;

verus! {

/// The reasons for which an operation is refused. Every refusal is final and
/// leaves all balances and the record as they were.
#[derive(Clone, Copy, Debug, PartialEq, Eq, Structural)]
pub enum EscrowError {
    /// An escrow was opened for zero lamports.
    InvalidAmount,
    /// The caller who claims the funds is not the record's recipient.
    UnauthorizedRecipient,
    /// The caller who takes the funds back is not the record's sender.
    UnauthorizedSender,
    /// The paying account holds less than it has to hand over.
    InsufficientFunds,
    /// The slot holds no record: none was opened there, or it was settled.
    RecordNotFound,
    /// The slot already holds a record.
    AddressInUse,
    /// The slot does not sit at the address derived from the record's keys.
    AddressMismatch,
    /// The wallet that is to take the deposit back is not the wallet of the
    /// record's sender.
    SenderMismatch,
}

impl EscrowError {
    /// The text of [`EscrowError::message`].
    pub open spec fn message_text(self) -> Seq<char> {
        match self {
            EscrowError::InvalidAmount => "Amount must be greater than 0"@,
            EscrowError::UnauthorizedRecipient => "Only the recipient can accept this escrow"@,
            EscrowError::UnauthorizedSender => "Only the sender can cancel this escrow"@,
            EscrowError::InsufficientFunds => "The paying account holds too few lamports"@,
            EscrowError::RecordNotFound => "No escrow record exists at this address"@,
            EscrowError::AddressInUse => "An escrow record already exists at this address"@,
            EscrowError::AddressMismatch => "The escrow account is not at its derived address"@,
            EscrowError::SenderMismatch => "The deposit goes back only to the sender of this escrow"@,
        }
    }

    /// A sentence for the person who made the request.
    pub fn message(&self) -> (text: &'static str)
        ensures
            text@ == self.message_text(),
    {
        match self {
            EscrowError::InvalidAmount => "Amount must be greater than 0",
            EscrowError::UnauthorizedRecipient => "Only the recipient can accept this escrow",
            EscrowError::UnauthorizedSender => "Only the sender can cancel this escrow",
            EscrowError::InsufficientFunds => "The paying account holds too few lamports",
            EscrowError::RecordNotFound => "No escrow record exists at this address",
            EscrowError::AddressInUse => "An escrow record already exists at this address",
            EscrowError::AddressMismatch => "The escrow account is not at its derived address",
            EscrowError::SenderMismatch => "The deposit goes back only to the sender of this escrow",
        }
    }
}

} // verus!
