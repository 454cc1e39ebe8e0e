use escrow::{
    accept_escrow, cancel_escrow, find_escrow_address, initialize_escrow, AcceptEscrow, Address,
    CancelEscrow, EscrowAccount, EscrowError, InitializeEscrow, Wallet,
};

const RENT: u64 = 1_566_000;

fn program() -> Address {
    Address::new([9u8; 32])
}

fn alice() -> Address {
    Address::new([1u8; 32])
}

fn bob() -> Address {
    Address::new([2u8; 32])
}

fn carol() -> Address {
    Address::new([3u8; 32])
}

fn vacant_slot(sender: &Address, recipient: &Address, escrow_id: u64) -> EscrowAccount {
    let (address, _) = find_escrow_address(&program(), sender, recipient, escrow_id).unwrap();
    EscrowAccount { address, lamports: 0, record: None }
}

/// Alice, holding ten million lamports, opens an escrow of 1000 for Bob under id 7.
fn opened() -> InitializeEscrow {
    let mut ctx = InitializeEscrow {
        program_id: program(),
        escrow: vacant_slot(&alice(), &bob(), 7),
        sender: Wallet { key: alice(), lamports: 10_000_000 },
        recipient: bob(),
        rent: RENT,
        unix_timestamp: 1_700_000_000,
    };
    assert!(ctx.is_wf());
    assert_eq!(initialize_escrow(&mut ctx, 1000, 7), Ok(()));
    ctx
}

#[test]
fn open_writes_the_record_from_the_request() {
    let ctx = opened();
    let record = ctx.escrow.record.unwrap();
    assert_eq!(record.sender(), alice());
    assert_eq!(record.recipient(), bob());
    assert_eq!(record.amount(), 1000);
    assert_eq!(record.escrow_id(), 7);
    assert_eq!(record.created_at(), 1_700_000_000);
    let (_, bump) = find_escrow_address(&program(), &alice(), &bob(), 7).unwrap();
    assert_eq!(record.bump(), bump);
}

#[test]
fn open_moves_amount_and_deposit_into_the_slot() {
    let ctx = opened();
    assert_eq!(ctx.sender.lamports, 10_000_000 - 1000 - RENT);
    assert_eq!(ctx.sender.lamports, 8_433_000);
    assert_eq!(ctx.escrow.lamports, 1000 + RENT);
    assert_eq!(ctx.escrow.lamports, 1_567_000);
    assert_eq!(ctx.sender.key, alice());
    assert_eq!(ctx.recipient, bob());
    assert_eq!(ctx.rent, RENT);
    assert!(ctx.is_wf());
    assert!(ctx.escrow.check_open(&program()));
    assert!(!ctx.escrow.check_open(&carol()));
}

#[test]
fn open_then_accept_by_recipient() {
    let open = opened();
    let mut ctx = AcceptEscrow {
        program_id: program(),
        escrow: open.escrow,
        recipient: Wallet { key: bob(), lamports: 500 },
        sender: open.sender,
    };
    assert!(ctx.is_wf());
    assert_eq!(accept_escrow(&mut ctx), Ok(()));
    assert_eq!(ctx.recipient.lamports, 1500);
    assert_eq!(ctx.sender.lamports, 10_000_000 - 1000);
    assert_eq!(ctx.escrow.lamports, 0);
    assert_eq!(ctx.escrow.record, None);
    assert_eq!(ctx.escrow.address, open.escrow.address);
    assert!(ctx.is_wf());
    assert!(!ctx.escrow.check_open(&program()));
}

#[test]
fn open_then_cancel_by_sender() {
    let open = opened();
    let mut ctx = CancelEscrow { program_id: program(), escrow: open.escrow, sender: open.sender };
    assert!(ctx.is_wf());
    assert_eq!(cancel_escrow(&mut ctx), Ok(()));
    assert_eq!(ctx.sender.lamports, 10_000_000);
    assert_eq!(ctx.escrow.lamports, 0);
    assert_eq!(ctx.escrow.record, None);
    assert!(ctx.is_wf());
}

#[test]
fn open_then_accept_by_stranger_is_refused() {
    let open = opened();
    let mut ctx = AcceptEscrow {
        program_id: program(),
        escrow: open.escrow,
        recipient: Wallet { key: carol(), lamports: 500 },
        sender: open.sender,
    };
    let before = ctx;
    assert!(ctx.is_wf());
    assert_eq!(accept_escrow(&mut ctx), Err(EscrowError::UnauthorizedRecipient));
    assert_eq!(ctx, before);
    assert!(ctx.escrow.record.is_some());
    assert_eq!(ctx.recipient.lamports, 500);
    assert_eq!(ctx.sender.lamports, 8_433_000);
    assert_eq!(ctx.escrow.lamports, 1_567_000);
}

#[test]
fn open_with_zero_amount_is_refused() {
    let mut ctx = InitializeEscrow {
        program_id: program(),
        escrow: vacant_slot(&alice(), &bob(), 7),
        sender: Wallet { key: alice(), lamports: 10_000_000 },
        recipient: bob(),
        rent: RENT,
        unix_timestamp: 1_700_000_000,
    };
    let before = ctx;
    assert_eq!(initialize_escrow(&mut ctx, 0, 7), Err(EscrowError::InvalidAmount));
    assert_eq!(ctx, before);
    assert_eq!(ctx.escrow.record, None);
    assert_eq!(ctx.sender.lamports, 10_000_000);
}

#[test]
fn zero_amount_is_refused_before_any_other_rule() {
    let (wrong, _) = find_escrow_address(&program(), &alice(), &bob(), 8).unwrap();
    let mut ctx = InitializeEscrow {
        program_id: program(),
        escrow: EscrowAccount { address: wrong, lamports: 0, record: opened().escrow.record },
        sender: Wallet { key: alice(), lamports: 0 },
        recipient: bob(),
        rent: RENT,
        unix_timestamp: 0,
    };
    let before = ctx;
    assert_eq!(initialize_escrow(&mut ctx, 0, 7), Err(EscrowError::InvalidAmount));
    assert_eq!(ctx, before);
}

#[test]
fn accept_cannot_be_replayed() {
    let open = opened();
    let mut ctx = AcceptEscrow {
        program_id: program(),
        escrow: open.escrow,
        recipient: Wallet { key: bob(), lamports: 500 },
        sender: open.sender,
    };
    assert_eq!(accept_escrow(&mut ctx), Ok(()));
    let settled = ctx;
    assert_eq!(accept_escrow(&mut ctx), Err(EscrowError::RecordNotFound));
    assert_eq!(ctx, settled);
    let mut cancel = CancelEscrow { program_id: program(), escrow: ctx.escrow, sender: ctx.sender };
    assert_eq!(cancel_escrow(&mut cancel), Err(EscrowError::RecordNotFound));
    assert_eq!(cancel.sender.lamports, 10_000_000 - 1000);
    assert_eq!(ctx.recipient.lamports, 1500);
}

#[test]
fn cancel_cannot_be_replayed() {
    let open = opened();
    let mut ctx = CancelEscrow { program_id: program(), escrow: open.escrow, sender: open.sender };
    assert_eq!(cancel_escrow(&mut ctx), Ok(()));
    let settled = ctx;
    assert_eq!(cancel_escrow(&mut ctx), Err(EscrowError::RecordNotFound));
    assert_eq!(ctx, settled);
    let mut claim = AcceptEscrow {
        program_id: program(),
        escrow: ctx.escrow,
        recipient: Wallet { key: bob(), lamports: 500 },
        sender: ctx.sender,
    };
    assert_eq!(accept_escrow(&mut claim), Err(EscrowError::RecordNotFound));
    assert_eq!(claim.recipient.lamports, 500);
    assert_eq!(claim.sender.lamports, 10_000_000);
}

#[test]
fn lamports_are_conserved_from_open_to_accept() {
    let start_sender: u64 = 10_000_000;
    let start_recipient: u64 = 500;
    let open = opened();
    assert_eq!(open.sender.lamports + open.escrow.lamports, start_sender);
    let mut ctx = AcceptEscrow {
        program_id: program(),
        escrow: open.escrow,
        recipient: Wallet { key: bob(), lamports: start_recipient },
        sender: open.sender,
    };
    assert_eq!(accept_escrow(&mut ctx), Ok(()));
    assert_eq!(
        ctx.sender.lamports + ctx.recipient.lamports + ctx.escrow.lamports,
        start_sender + start_recipient
    );
}

#[test]
fn lamports_are_conserved_from_open_to_cancel() {
    let open = opened();
    let mut ctx = CancelEscrow { program_id: program(), escrow: open.escrow, sender: open.sender };
    assert_eq!(cancel_escrow(&mut ctx), Ok(()));
    assert_eq!(ctx.sender.lamports + ctx.escrow.lamports, 10_000_000);
}

#[test]
fn a_settled_id_can_be_opened_again() {
    let open = opened();
    let mut cancel = CancelEscrow { program_id: program(), escrow: open.escrow, sender: open.sender };
    assert_eq!(cancel_escrow(&mut cancel), Ok(()));
    let mut again = InitializeEscrow {
        program_id: program(),
        escrow: cancel.escrow,
        sender: cancel.sender,
        recipient: bob(),
        rent: RENT,
        unix_timestamp: 1_700_000_100,
    };
    assert_eq!(initialize_escrow(&mut again, 250, 7), Ok(()));
    let record = again.escrow.record.unwrap();
    assert_eq!(record.amount(), 250);
    assert_eq!(record.created_at(), 1_700_000_100);
    assert_eq!(again.escrow.lamports, 250 + RENT);
}

#[test]
fn a_party_can_accept_its_own_escrow() {
    let mut open = InitializeEscrow {
        program_id: program(),
        escrow: vacant_slot(&alice(), &alice(), 1),
        sender: Wallet { key: alice(), lamports: 5_000_000 },
        recipient: alice(),
        rent: RENT,
        unix_timestamp: 5,
    };
    assert_eq!(initialize_escrow(&mut open, 300, 1), Ok(()));
    let mut ctx = AcceptEscrow {
        program_id: program(),
        escrow: open.escrow,
        recipient: open.sender,
        sender: open.sender,
    };
    assert!(ctx.is_wf());
    assert_eq!(accept_escrow(&mut ctx), Ok(()));
    assert_eq!(ctx.recipient.lamports, 5_000_000);
    assert_eq!(ctx.sender.lamports, 5_000_000);
    assert_eq!(ctx.escrow.lamports, 0);
    assert_eq!(ctx.escrow.record, None);
}

#[test]
fn stray_lamports_of_a_vacant_slot_go_to_the_sender() {
    let mut slot = vacant_slot(&alice(), &bob(), 7);
    slot.lamports = 40;
    let mut open = InitializeEscrow {
        program_id: program(),
        escrow: slot,
        sender: Wallet { key: alice(), lamports: 10_000_000 },
        recipient: bob(),
        rent: RENT,
        unix_timestamp: 0,
    };
    assert_eq!(initialize_escrow(&mut open, 1000, 7), Ok(()));
    assert_eq!(open.escrow.lamports, 40 + 1000 + RENT);
    let mut ctx = AcceptEscrow {
        program_id: program(),
        escrow: open.escrow,
        recipient: Wallet { key: bob(), lamports: 0 },
        sender: open.sender,
    };
    assert_eq!(accept_escrow(&mut ctx), Ok(()));
    assert_eq!(ctx.recipient.lamports, 1000);
    assert_eq!(ctx.sender.lamports, 10_000_000 - 1000 + 40);
}
