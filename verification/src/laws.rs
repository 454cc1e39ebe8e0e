//! What holds of the three operations together: who decides a settlement,
//! that a settled escrow cannot be settled again, and that no lamport is
//! made or lost between the opening of an escrow and its settlement.

use vstd::prelude::*;
use crate::accept::AcceptEscrow;
use crate::cancel::CancelEscrow;
use crate::error::EscrowError;
use crate::initialize::InitializeEscrow;
use crate::record::Escrow;

verus! {

/// On an open slot whose deposit is to go back to the record's sender, the
/// caller alone decides the claim: it is granted if the caller is the record's
/// recipient, and refused as unauthorized if not. Once granted, the slot is
/// vacant and empty, and the sender has the deposit back. A caller who is not
/// the sender has gained exactly the escrowed amount; a caller who is also the
/// sender has gained all that the slot held.
pub proof fn lemma_accept_decided_by_recipient(ctx: AcceptEscrow)
    requires
        ctx.wf(),
        ctx.escrow.is_open(ctx.program_id@),
        ctx.sender.key@ == ctx.escrow.record->Some_0@.sender,
    ensures
        ({
            let record = ctx.escrow.record->Some_0@;
            let refusal = ctx.refusal(ctx.escrow.derived(ctx.program_id@));
            let done = ctx.accepted();
            &&& refusal is None <==> ctx.recipient.key@ == record.recipient
            &&& refusal is Some ==> refusal == Some(EscrowError::UnauthorizedRecipient)
            &&& done.escrow.is_vacant()
            &&& done.escrow.lamports == 0
            &&& !ctx.one_party() ==> {
                &&& done.recipient.lamports == ctx.recipient.lamports + record.amount
                &&& done.sender.lamports == ctx.sender.lamports + ctx.escrow.deposit()
            }
            &&& ctx.one_party() ==> {
                &&& done.recipient.lamports == ctx.recipient.lamports + record.amount
                    + ctx.escrow.deposit()
                &&& done.sender.lamports == done.recipient.lamports
            }
        }),
{
}

/// On an open slot the caller alone decides the cancellation: it is granted
/// if the caller is the record's sender, and refused as unauthorized if not.
/// Once granted, the slot is vacant and empty, and the sender has gained
/// exactly the escrowed amount and the deposit.
pub proof fn lemma_cancel_decided_by_sender(ctx: CancelEscrow)
    requires
        ctx.wf(),
        ctx.escrow.is_open(ctx.program_id@),
    ensures
        ({
            let record = ctx.escrow.record->Some_0@;
            let refusal = ctx.refusal(ctx.escrow.derived(ctx.program_id@));
            let done = ctx.cancelled();
            &&& refusal is None <==> ctx.sender.key@ == record.sender
            &&& refusal is Some ==> refusal == Some(EscrowError::UnauthorizedSender)
            &&& done.escrow.is_vacant()
            &&& done.escrow.lamports == 0
            &&& done.sender.lamports == ctx.sender.lamports + record.amount + ctx.escrow.deposit()
        }),
{
}

/// A granted opening turns a vacant slot into an open one. The amount is
/// positive, the record holds it, the deposit of the slot is the storage
/// deposit together with what the vacant slot held, and the sender and the
/// slot hold together what they held before.
pub proof fn lemma_opening_fills_a_vacant_slot(
    before: InitializeEscrow,
    after: InitializeEscrow,
    amount: u64,
    escrow_id: u64,
)
    requires
        before.wf(),
        before.opens(after, amount, escrow_id),
    ensures
        before.escrow.is_vacant(),
        after.escrow.is_open(before.program_id@),
        amount > 0,
        after.escrow.record->Some_0@.amount == amount,
        after.escrow.deposit() == before.escrow.lamports + before.rent,
        after.total() == before.total(),
{
}

/// What a granted opening leaves is determined by the request: two outcomes
/// of the same request on the same accounts are the same accounts.
pub proof fn lemma_opening_is_determined(
    before: InitializeEscrow,
    after: InitializeEscrow,
    other: InitializeEscrow,
    amount: u64,
    escrow_id: u64,
)
    requires
        before.opens(after, amount, escrow_id),
        before.opens(other, amount, escrow_id),
    ensures
        after == other,
{
    Escrow::lemma_view_injective(after.escrow.record->Some_0, other.escrow.record->Some_0);
}

/// Once a claim was granted, the escrow cannot be settled a second time:
/// whoever calls, a further claim and a cancellation on the slot that it left
/// are both refused, because no record is found.
pub proof fn lemma_no_settlement_after_accept(
    first: AcceptEscrow,
    claim: AcceptEscrow,
    cancellation: CancelEscrow,
)
    requires
        first.refusal(first.escrow.derived(first.program_id@)) is None,
        claim.escrow == first.accepted().escrow,
        cancellation.escrow == first.accepted().escrow,
    ensures
        claim.refusal(claim.escrow.derived(claim.program_id@)) == Some(EscrowError::RecordNotFound),
        cancellation.refusal(cancellation.escrow.derived(cancellation.program_id@)) == Some(
            EscrowError::RecordNotFound,
        ),
{
}

/// Once a cancellation was granted, the escrow cannot be settled a second
/// time: whoever calls, a claim and a further cancellation on the slot that it
/// left are both refused, because no record is found.
pub proof fn lemma_no_settlement_after_cancel(
    first: CancelEscrow,
    claim: AcceptEscrow,
    cancellation: CancelEscrow,
)
    requires
        first.refusal(first.escrow.derived(first.program_id@)) is None,
        claim.escrow == first.cancelled().escrow,
        cancellation.escrow == first.cancelled().escrow,
    ensures
        claim.refusal(claim.escrow.derived(claim.program_id@)) == Some(EscrowError::RecordNotFound),
        cancellation.refusal(cancellation.escrow.derived(cancellation.program_id@)) == Some(
            EscrowError::RecordNotFound,
        ),
{
}

/// An escrow that was opened can be claimed by its recipient, and between
/// the opening and the claim no lamport is made or lost. The claim empties
/// the slot. Where the recipient is not the sender, the recipient ends with
/// the escrowed amount more, and the sender with the escrowed amount less,
/// the deposit paid and received back, and whatever the vacant slot held
/// before. Where the two are one party, that party ends with what it had and
/// what the vacant slot held.
pub proof fn lemma_open_then_accept_conserves(
    before: InitializeEscrow,
    after: InitializeEscrow,
    amount: u64,
    escrow_id: u64,
    claim: AcceptEscrow,
)
    requires
        before.wf(),
        before.opens(after, amount, escrow_id),
        claim.wf(),
        claim.program_id == before.program_id,
        claim.escrow == after.escrow,
        claim.sender == after.sender,
        claim.recipient.key@ == before.recipient@,
    ensures
        claim.refusal(claim.escrow.derived(claim.program_id@)) is None,
        ({
            let done = claim.accepted();
            &&& done.escrow.is_vacant()
            &&& done.escrow.lamports == 0
            &&& !claim.one_party() ==> {
                &&& done.recipient.lamports == claim.recipient.lamports + amount
                &&& done.sender.lamports == before.sender.lamports - amount + before.escrow.lamports
                &&& done.escrow.lamports + done.sender.lamports + done.recipient.lamports
                    == before.escrow.lamports + before.sender.lamports + claim.recipient.lamports
            }
            &&& claim.one_party() ==> {
                &&& done.sender.lamports == before.sender.lamports + before.escrow.lamports
                &&& done.recipient.lamports == done.sender.lamports
                &&& done.escrow.lamports + done.sender.lamports == before.escrow.lamports
                    + before.sender.lamports
            }
        }),
{
}

/// An escrow that was opened can be cancelled by its sender, and between the
/// opening and the cancellation no lamport is made or lost: the slot ends
/// empty, and the sender with what it had and what the vacant slot held
/// before.
pub proof fn lemma_open_then_cancel_conserves(
    before: InitializeEscrow,
    after: InitializeEscrow,
    amount: u64,
    escrow_id: u64,
    cancellation: CancelEscrow,
)
    requires
        before.wf(),
        before.opens(after, amount, escrow_id),
        cancellation.program_id == before.program_id,
        cancellation.escrow == after.escrow,
        cancellation.sender == after.sender,
    ensures
        cancellation.wf(),
        cancellation.refusal(cancellation.escrow.derived(cancellation.program_id@)) is None,
        ({
            let done = cancellation.cancelled();
            &&& done.escrow.is_vacant()
            &&& done.escrow.lamports == 0
            &&& done.sender.lamports == before.sender.lamports + before.escrow.lamports
            &&& done.escrow.lamports + done.sender.lamports == before.escrow.lamports
                + before.sender.lamports
        }),
{
}

} // verus!
