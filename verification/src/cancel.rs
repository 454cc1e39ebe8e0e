//! Cancelling an escrow: the sender takes the funds back, and the slot is
//! closed.

use vstd::prelude::*;
use crate::account::{transfer, EscrowAccount, Wallet};
use crate::address::Address;
use crate::error::EscrowError;
use crate::pda::made_view;

verus! {

/// What cancelling an escrow touches.
#[derive(Clone, Copy, Debug, PartialEq, Eq)]
pub struct CancelEscrow {
    /// The program under whose id record addresses are derived.
    pub program_id: Address,
    /// The slot that holds the record.
    pub escrow: EscrowAccount,
    /// The caller, who takes the funds back.
    pub sender: Wallet,
}

impl CancelEscrow {
    /// The accounts are accounts of one ledger: the slot is not the caller's
    /// wallet, and what the two hold together fits in a `u64`.
    pub open spec fn wf(self) -> bool {
        &&& self.escrow.address@ != self.sender.key@
        &&& self.total() <= u64::MAX
    }

    /// The lamports that the slot and the caller hold together.
    pub open spec fn total(self) -> int {
        self.escrow.lamports + self.sender.lamports
    }

    /// Tests [`CancelEscrow::wf`].
    pub fn is_wf(&self) -> (ok: bool)
        ensures
            ok == self.wf(),
    {
        self.escrow.address != self.sender.key && self.escrow.lamports <= u64::MAX
            - self.sender.lamports
    }

    /// The rule that refuses the cancellation, where `derived` is the
    /// address derived from the record. The first rule that applies decides.
    pub open spec fn refusal(self, derived: Option<Seq<u8>>) -> Option<EscrowError> {
        match self.escrow.record {
            None => Some(EscrowError::RecordNotFound),
            Some(record) => if derived != Some(self.escrow.address@) {
                Some(EscrowError::AddressMismatch)
            } else if self.sender.key@ != record@.sender {
                Some(EscrowError::UnauthorizedSender)
            } else if self.escrow.lamports < record@.amount {
                Some(EscrowError::InsufficientFunds)
            } else {
                None
            },
        }
    }

    /// The accounts once the escrow was cancelled: the sender has all that
    /// the slot held, the escrowed amount and the deposit, and the slot is
    /// vacant and empty.
    pub open spec fn cancelled(self) -> CancelEscrow {
        CancelEscrow {
            program_id: self.program_id,
            escrow: EscrowAccount { address: self.escrow.address, lamports: 0, record: None },
            sender: Wallet {
                key: self.sender.key,
                lamports: (self.sender.lamports + self.escrow.lamports) as u64,
            },
        }
    }
}

/// Grants or refuses the cancellation, given the address that was derived
/// from the record.
///
/// A refusal changes nothing. Otherwise all that the slot holds goes to the
/// caller, and the record is gone. The accounts are to be well formed, which
/// [`CancelEscrow::is_wf`] tests.
pub fn cancel_at(ctx: &mut CancelEscrow, derived: Option<Address>) -> (res: Result<(), EscrowError>)
    requires
        old(ctx).wf(),
    ensures
        final(ctx).wf(),
        final(ctx).total() == old(ctx).total(),
        match old(ctx).refusal(made_view(derived)) {
            Some(error) => res == Err::<(), EscrowError>(error) && *final(ctx) == *old(ctx),
            None => res is Ok && *final(ctx) == old(ctx).cancelled(),
        },
{
    let record = match ctx.escrow.record {
        Some(record) => record,
        None => {
            return Err(EscrowError::RecordNotFound);
        },
    };
    match derived {
        Some(address) => {
            if address != ctx.escrow.address {
                return Err(EscrowError::AddressMismatch);
            }
        },
        None => {
            return Err(EscrowError::AddressMismatch);
        },
    }
    if ctx.sender.key != record.sender() {
        return Err(EscrowError::UnauthorizedSender);
    }
    match transfer(&mut ctx.escrow.lamports, &mut ctx.sender.lamports, record.amount()) {
        Ok(()) => {},
        Err(error) => {
            return Err(error);
        },
    }
    ctx.escrow.close(&mut ctx.sender.lamports);
    Ok(())
}

/// The sender takes back the funds of the escrow in the slot.
///
/// The cancellation is refused, and nothing changes, where the slot holds no
/// record (`RecordNotFound`), where the slot is not at the address derived
/// from the record (`AddressMismatch`), where the caller is not the record's
/// sender (`UnauthorizedSender`), or where the slot holds less than the
/// escrowed amount (`InsufficientFunds`). Otherwise the caller receives the
/// escrowed amount and the deposit, and the slot is vacant. The accounts are
/// to be well formed, which [`CancelEscrow::is_wf`] tests.
pub fn cancel_escrow(ctx: &mut CancelEscrow) -> (res: Result<(), EscrowError>)
    requires
        old(ctx).wf(),
    ensures
        final(ctx).wf(),
        final(ctx).total() == old(ctx).total(),
        match old(ctx).refusal(old(ctx).escrow.derived(old(ctx).program_id@)) {
            Some(error) => res == Err::<(), EscrowError>(error) && *final(ctx) == *old(ctx),
            None => res is Ok && *final(ctx) == old(ctx).cancelled(),
        },
{
    let derived = ctx.escrow.derive_address(&ctx.program_id);
    cancel_at(ctx, derived)
}

} // verus!
