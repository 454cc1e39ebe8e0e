//! Accepting an escrow: the recipient claims the funds, and the slot is
//! closed.

use vstd::prelude::*;
use crate::account::{transfer, EscrowAccount, Wallet};
use crate::address::Address;
use crate::error::EscrowError;
use crate::pda::made_view;

verus! {

/// What accepting an escrow touches.
#[derive(Clone, Copy, Debug, PartialEq, Eq)]
pub struct AcceptEscrow {
    /// The program under whose id record addresses are derived.
    pub program_id: Address,
    /// The slot that holds the record.
    pub escrow: EscrowAccount,
    /// The caller, who claims the funds.
    pub recipient: Wallet,
    /// The wallet to which the deposit goes back: that of the record's
    /// sender, or the claim is refused.
    pub sender: Wallet,
}

impl AcceptEscrow {
    /// The accounts are accounts of one ledger. The slot is no party's
    /// wallet. Where the two wallets have one key, they show one account, and
    /// so the same balance. What the accounts hold together fits in a `u64`.
    pub open spec fn wf(self) -> bool {
        &&& self.escrow.address@ != self.recipient.key@
        &&& self.escrow.address@ != self.sender.key@
        &&& (self.one_party() ==> self.recipient.lamports == self.sender.lamports)
        &&& self.total() <= u64::MAX
    }

    /// Whether the two wallets are the wallet of one party.
    pub open spec fn one_party(self) -> bool {
        self.recipient.key@ == self.sender.key@
    }

    /// The lamports that the slot and the parties hold together, one
    /// account counted once.
    pub open spec fn total(self) -> int {
        if self.one_party() {
            self.escrow.lamports + self.recipient.lamports
        } else {
            self.escrow.lamports + self.recipient.lamports + self.sender.lamports
        }
    }

    /// Tests [`AcceptEscrow::wf`].
    pub fn is_wf(&self) -> (ok: bool)
        ensures
            ok == self.wf(),
    {
        if self.escrow.address == self.recipient.key || self.escrow.address == self.sender.key {
            return false;
        }
        if self.recipient.key == self.sender.key {
            self.recipient.lamports == self.sender.lamports && self.escrow.lamports <= u64::MAX
                - self.recipient.lamports
        } else {
            self.escrow.lamports <= u64::MAX - self.recipient.lamports && self.sender.lamports
                <= u64::MAX - self.recipient.lamports - self.escrow.lamports
        }
    }

    /// The rule that refuses the claim, where `derived` is the address
    /// derived from the record. The first rule that applies decides.
    pub open spec fn refusal(self, derived: Option<Seq<u8>>) -> Option<EscrowError> {
        match self.escrow.record {
            None => Some(EscrowError::RecordNotFound),
            Some(record) => if derived != Some(self.escrow.address@) {
                Some(EscrowError::AddressMismatch)
            } else if self.recipient.key@ != record@.recipient {
                Some(EscrowError::UnauthorizedRecipient)
            } else if self.sender.key@ != record@.sender {
                Some(EscrowError::SenderMismatch)
            } else if self.escrow.lamports < record@.amount {
                Some(EscrowError::InsufficientFunds)
            } else {
                None
            },
        }
    }

    /// The accounts once the claim was granted: the recipient has the
    /// escrowed amount, the sender has the rest of what the slot held, and
    /// the slot is vacant and empty.
    pub open spec fn accepted(self) -> AcceptEscrow
        recommends
            self.escrow.record is Some,
    {
        let amount = self.escrow.record->Some_0@.amount;
        let deposit = self.escrow.lamports - amount;
        AcceptEscrow {
            program_id: self.program_id,
            escrow: EscrowAccount { address: self.escrow.address, lamports: 0, record: None },
            recipient: Wallet {
                key: self.recipient.key,
                lamports: if self.one_party() {
                    (self.recipient.lamports + amount + deposit) as u64
                } else {
                    (self.recipient.lamports + amount) as u64
                },
            },
            sender: Wallet {
                key: self.sender.key,
                lamports: if self.one_party() {
                    (self.sender.lamports + amount + deposit) as u64
                } else {
                    (self.sender.lamports + deposit) as u64
                },
            },
        }
    }
}

/// Grants or refuses the claim, given the address that was derived from the
/// record.
///
/// A refusal changes nothing. Otherwise the escrowed amount goes to the
/// caller, the rest of what the slot holds goes to the sender, and the record
/// is gone. The accounts are to be well formed, which [`AcceptEscrow::is_wf`]
/// tests.
pub fn accept_at(ctx: &mut AcceptEscrow, derived: Option<Address>) -> (res: Result<(), EscrowError>)
    requires
        old(ctx).wf(),
    ensures
        final(ctx).wf(),
        final(ctx).total() == old(ctx).total(),
        match old(ctx).refusal(made_view(derived)) {
            Some(error) => res == Err::<(), EscrowError>(error) && *final(ctx) == *old(ctx),
            None => res is Ok && *final(ctx) == old(ctx).accepted(),
        },
{
    let record = match ctx.escrow.record {
        Some(record) => record,
        None => {
            return Err(EscrowError::RecordNotFound);
        },
    };
    match derived {
        Some(address) => {
            if address != ctx.escrow.address {
                return Err(EscrowError::AddressMismatch);
            }
        },
        None => {
            return Err(EscrowError::AddressMismatch);
        },
    }
    if ctx.recipient.key != record.recipient() {
        return Err(EscrowError::UnauthorizedRecipient);
    }
    if ctx.sender.key != record.sender() {
        return Err(EscrowError::SenderMismatch);
    }
    match transfer(&mut ctx.escrow.lamports, &mut ctx.recipient.lamports, record.amount()) {
        Ok(()) => {},
        Err(error) => {
            return Err(error);
        },
    }
    if ctx.recipient.key == ctx.sender.key {
        ctx.escrow.close(&mut ctx.recipient.lamports);
        ctx.sender.lamports = ctx.recipient.lamports;
    } else {
        ctx.escrow.close(&mut ctx.sender.lamports);
    }
    Ok(())
}

/// The recipient claims the funds of the escrow in the slot.
///
/// The claim is refused, and nothing changes, where the slot holds no
/// record (`RecordNotFound`), where the slot is not at the address derived
/// from the record (`AddressMismatch`), where the caller is not the record's
/// recipient (`UnauthorizedRecipient`), where the wallet for the deposit is
/// not that of the record's sender (`SenderMismatch`), or where the slot holds
/// less than the escrowed amount (`InsufficientFunds`). Otherwise the caller
/// receives the escrowed amount, the sender receives the deposit, and the slot
/// is vacant. The accounts are to be well formed, which
/// [`AcceptEscrow::is_wf`] tests.
pub fn accept_escrow(ctx: &mut AcceptEscrow) -> (res: Result<(), EscrowError>)
    requires
        old(ctx).wf(),
    ensures
        final(ctx).wf(),
        final(ctx).total() == old(ctx).total(),
        match old(ctx).refusal(old(ctx).escrow.derived(old(ctx).program_id@)) {
            Some(error) => res == Err::<(), EscrowError>(error) && *final(ctx) == *old(ctx),
            None => res is Ok && *final(ctx) == old(ctx).accepted(),
        },
{
    let derived = ctx.escrow.derive_address(&ctx.program_id);
    accept_at(ctx, derived)
}

} // verus!
