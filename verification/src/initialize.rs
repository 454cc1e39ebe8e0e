//! Opening an escrow: the sender's lamports go into the slot, and the record
//! is written.

use vstd::prelude::*;
use crate::account::{transfer, EscrowAccount, Wallet};
use crate::address::Address;
use crate::error::EscrowError;
use crate::pda::{escrow_address, find_escrow_address, found_view};
use crate::record::{Escrow, EscrowView};

verus! {

/// What opening an escrow touches.
#[derive(Clone, Copy, Debug, PartialEq, Eq)]
pub struct InitializeEscrow {
    /// The program under whose id record addresses are derived.
    pub program_id: Address,
    /// The slot in which the record is to be written.
    pub escrow: EscrowAccount,
    /// The caller, who pays the escrowed amount and the storage deposit.
    pub sender: Wallet,
    /// The party for whom the funds are locked.
    pub recipient: Address,
    /// The storage deposit that a record slot costs.
    pub rent: u64,
    /// The time to write into the record.
    pub unix_timestamp: i64,
}

impl InitializeEscrow {
    /// The accounts are accounts of one ledger: the slot is not the sender's
    /// wallet, and what the two hold together fits in a `u64`.
    pub open spec fn wf(self) -> bool {
        &&& self.escrow.address@ != self.sender.key@
        &&& self.total() <= u64::MAX
    }

    /// The lamports that the sender and the slot hold together.
    pub open spec fn total(self) -> int {
        self.escrow.lamports + self.sender.lamports
    }

    /// Tests [`InitializeEscrow::wf`].
    pub fn is_wf(&self) -> (ok: bool)
        ensures
            ok == self.wf(),
    {
        self.escrow.address != self.sender.key && self.escrow.lamports <= u64::MAX
            - self.sender.lamports
    }

    /// The address derived for the record of this request, with its bump
    /// seed; `None` where no bump seed leads to an address.
    pub open spec fn derived(self, escrow_id: u64) -> Option<(Seq<u8>, u8)> {
        escrow_address(self.program_id@, self.sender.key@, self.recipient@, escrow_id)
    }

    /// The rule that refuses to open an escrow for `amount`, where `derived`
    /// is the address derived for the record with its bump seed. The first
    /// rule that applies decides.
    pub open spec fn refusal(self, amount: u64, derived: Option<(Seq<u8>, u8)>) -> Option<EscrowError> {
        if amount == 0 {
            Some(EscrowError::InvalidAmount)
        } else if !(derived matches Some((address, _)) && address == self.escrow.address@) {
            Some(EscrowError::AddressMismatch)
        } else if self.escrow.record is Some {
            Some(EscrowError::AddressInUse)
        } else if self.sender.lamports < amount + self.rent {
            Some(EscrowError::InsufficientFunds)
        } else {
            None
        }
    }

    /// `after` is `self` once an escrow for `amount` was opened in it with
    /// the bump seed `bump`: the record says what was asked, the sender has
    /// paid the amount and the deposit into the slot, and nothing else moved.
    pub open spec fn opened(self, after: InitializeEscrow, amount: u64, escrow_id: u64, bump: u8) -> bool {
        &&& after.program_id == self.program_id
        &&& after.recipient == self.recipient
        &&& after.rent == self.rent
        &&& after.unix_timestamp == self.unix_timestamp
        &&& after.sender.key == self.sender.key
        &&& after.sender.lamports == self.sender.lamports - amount - self.rent
        &&& after.escrow.address == self.escrow.address
        &&& after.escrow.lamports == self.escrow.lamports + amount + self.rent
        &&& after.escrow.record matches Some(record)
        &&& record@ == (EscrowView {
            sender: self.sender.key@,
            recipient: self.recipient@,
            amount,
            escrow_id,
            created_at: self.unix_timestamp,
            bump,
        })
    }

    /// The request to open an escrow for `amount` under `escrow_id` is
    /// granted, and `after` is what it leaves: the accounts as
    /// [`InitializeEscrow::opened`] says, with the bump seed that was derived,
    /// and the slot open.
    pub open spec fn opens(self, after: InitializeEscrow, amount: u64, escrow_id: u64) -> bool {
        &&& self.refusal(amount, self.derived(escrow_id)) is None
        &&& self.opened(after, amount, escrow_id, self.derived(escrow_id)->Some_0.1)
        &&& after.escrow.is_open(self.program_id@)
    }
}

/// Opens an escrow in the slot, given the address that was derived for the
/// record and its bump seed.
///
/// A refusal changes nothing. Otherwise the sender pays `amount` and the
/// storage deposit into the slot, and the record is written from the request.
/// The accounts are to be well formed, which [`InitializeEscrow::is_wf`] tests.
pub fn initialize_at(
    ctx: &mut InitializeEscrow,
    amount: u64,
    escrow_id: u64,
    derived: Option<(Address, u8)>,
) -> (res: Result<(), EscrowError>)
    requires
        old(ctx).wf(),
    ensures
        final(ctx).wf(),
        final(ctx).total() == old(ctx).total(),
        match old(ctx).refusal(amount, found_view(derived)) {
            Some(error) => res == Err::<(), EscrowError>(error) && *final(ctx) == *old(ctx),
            None => res is Ok && old(ctx).opened(*final(ctx), amount, escrow_id, derived->Some_0.1),
        },
{
    if amount == 0 {
        return Err(EscrowError::InvalidAmount);
    }
    let bump = match derived {
        Some((address, bump)) => {
            if address != ctx.escrow.address {
                return Err(EscrowError::AddressMismatch);
            }
            bump
        },
        None => {
            return Err(EscrowError::AddressMismatch);
        },
    };
    if ctx.escrow.record.is_some() {
        return Err(EscrowError::AddressInUse);
    }
    let due = match amount.checked_add(ctx.rent) {
        Some(due) => due,
        None => {
            return Err(EscrowError::InsufficientFunds);
        },
    };
    let record = match Escrow::new(
        ctx.sender.key,
        ctx.recipient,
        amount,
        escrow_id,
        ctx.unix_timestamp,
        bump,
    ) {
        Ok(record) => record,
        Err(error) => {
            return Err(error);
        },
    };
    match transfer(&mut ctx.sender.lamports, &mut ctx.escrow.lamports, due) {
        Ok(()) => {},
        Err(error) => {
            return Err(error);
        },
    }
    ctx.escrow.record = Some(record);
    Ok(())
}

/// Opens an escrow of `amount` lamports from the sender for the recipient,
/// under `escrow_id`.
///
/// The request is refused, and nothing changes, where `amount` is zero
/// (`InvalidAmount`), where the slot is not at the address derived from
/// `(sender, recipient, escrow_id)` (`AddressMismatch`), where the slot holds
/// a record already (`AddressInUse`), or where the sender cannot pay the
/// amount and the storage deposit (`InsufficientFunds`). Otherwise the sender
/// pays both into the slot and the record is written; the slot is then open.
/// The accounts are to be well formed, which [`InitializeEscrow::is_wf`] tests.
pub fn initialize_escrow(ctx: &mut InitializeEscrow, amount: u64, escrow_id: u64) -> (res: Result<
    (),
    EscrowError,
>)
    requires
        old(ctx).wf(),
    ensures
        final(ctx).wf(),
        final(ctx).total() == old(ctx).total(),
        amount == 0 ==> res == Err::<(), EscrowError>(EscrowError::InvalidAmount),
        res is Err ==> *final(ctx) == *old(ctx),
        match old(ctx).refusal(amount, old(ctx).derived(escrow_id)) {
            Some(error) => res == Err::<(), EscrowError>(error),
            None => res is Ok && old(ctx).opens(*final(ctx), amount, escrow_id),
        },
{
    let derived = find_escrow_address(&ctx.program_id, &ctx.sender.key, &ctx.recipient, escrow_id);
    initialize_at(ctx, amount, escrow_id, derived)
}

} // verus!
