//! Each operation on its own: what it changes, and when it refuses.

use bribery_buster::derivation::find_treasury_address;
use bribery_buster::{
    initialize, reward_user, submit_report, Account, Address, BriberyBusterError, Failure,
    Initialize, Report, RewardAction, RewardEvent, RewardUser, SubmitReport, TransferError,
    Treasury,
};

const PROGRAM: Address = Address { bytes: [9; 32] };
const AUTHORITY: Address = Address { bytes: [0xA1; 32] };
const REPORTER: Address = Address { bytes: [0xB2; 32] };

fn address(byte: u8) -> Address {
    Address { bytes: [byte; 32] }
}

fn vacant_treasury() -> Initialize {
    let (address, _) = find_treasury_address(&AUTHORITY, &PROGRAM).unwrap();
    Initialize { program_id: PROGRAM, treasury: Account { address, data: None }, authority: AUTHORITY }
}

fn treasury_with(total_reports: u64, total_rewards_distributed: u64) -> Account<Treasury> {
    let (address, bump) = find_treasury_address(&AUTHORITY, &PROGRAM).unwrap();
    Account {
        address,
        data: Treasury { authority: AUTHORITY, bump, total_reports, total_rewards_distributed },
    }
}

fn submission(treasury: Account<Treasury>, place: u8) -> SubmitReport {
    SubmitReport {
        report: Account { address: address(place), data: None },
        treasury,
        reporter: REPORTER,
    }
}

fn reward(treasury: Account<Treasury>) -> RewardUser {
    RewardUser {
        program_id: PROGRAM,
        treasury,
        treasury_token_account: address(0xC3),
        user_token_account: address(0xD4),
        user: address(0xE5),
    }
}

#[test]
fn initialize_creates_an_empty_treasury_with_the_canonical_bump() {
    let (address, bump) = find_treasury_address(&AUTHORITY, &PROGRAM).unwrap();
    let mut ctx = vacant_treasury();
    assert_eq!(initialize(&mut ctx), Ok(address));
    assert_eq!(
        ctx,
        Initialize {
            program_id: PROGRAM,
            treasury: Account {
                address,
                data: Some(Treasury {
                    authority: AUTHORITY,
                    bump,
                    total_reports: 0,
                    total_rewards_distributed: 0,
                }),
            },
            authority: AUTHORITY,
        }
    );
}

#[test]
fn initialize_twice_for_one_authority_fails() {
    let mut ctx = vacant_treasury();
    assert!(initialize(&mut ctx).is_ok());
    let created = ctx;
    assert_eq!(initialize(&mut ctx), Err(Failure::AlreadyExists));
    assert_eq!(ctx, created);
}

#[test]
fn initialize_does_not_replace_a_treasury_in_use() {
    let mut ctx = vacant_treasury();
    ctx.treasury.data = Some(treasury_with(12, 3_400).data);
    let before = ctx;
    assert_eq!(initialize(&mut ctx), Err(Failure::AlreadyExists));
    assert_eq!(ctx, before);
}

#[test]
fn initialize_elsewhere_than_at_the_derived_address_fails() {
    let mut ctx = vacant_treasury();
    ctx.treasury.address = address(0x42);
    let before = ctx;
    assert_eq!(initialize(&mut ctx), Err(Failure::AddressMismatch));
    assert_eq!(ctx, before);

    let mut other = vacant_treasury();
    other.authority = address(0xA2);
    assert_eq!(initialize(&mut other), Err(Failure::AddressMismatch));

    let mut foreign = vacant_treasury();
    foreign.program_id = address(8);
    assert_eq!(initialize(&mut foreign), Err(Failure::AddressMismatch));
}

#[test]
fn every_authority_gets_a_treasury_of_its_own() {
    let mut seen: Vec<Address> = Vec::new();
    for byte in [1u8, 2, 3, 4] {
        let authority = address(byte);
        let (place, _) = find_treasury_address(&authority, &PROGRAM).unwrap();
        let mut ctx = Initialize {
            program_id: PROGRAM,
            treasury: Account { address: place, data: None },
            authority,
        };
        assert_eq!(initialize(&mut ctx), Ok(place));
        assert_eq!(ctx.treasury.data.unwrap().authority, authority);
        assert!(!seen.contains(&place));
        seen.push(place);
    }
}

#[test]
fn submit_report_records_what_was_submitted() {
    let mut ctx = submission(treasury_with(41, 7), 0x11);
    let hash = [0xABu8; 32];
    assert_eq!(submit_report(&mut ctx, hash, -5), Ok(address(0x11)));
    assert_eq!(
        ctx.report,
        Account {
            address: address(0x11),
            data: Some(Report { reporter: REPORTER, hash, timestamp: -5, verified: false }),
        }
    );
    assert_eq!(ctx.treasury, treasury_with(42, 7));
    assert_eq!(ctx.reporter, REPORTER);
}

#[test]
fn submit_report_counts_every_submission() {
    let mut treasury = treasury_with(0, 0);
    let mut reports: Vec<Account<Option<Report>>> = Vec::new();
    for n in 0u8..25 {
        let mut ctx = submission(treasury, n);
        let hash = [n; 32];
        assert_eq!(submit_report(&mut ctx, hash, 1_000 + i64::from(n)), Ok(address(n)));
        treasury = ctx.treasury;
        reports.push(ctx.report);
    }
    assert_eq!(treasury, treasury_with(25, 0));
    assert_eq!(reports.len(), 25);
    for (n, report) in reports.iter().enumerate() {
        let record = report.data.unwrap();
        assert!(!record.verified);
        assert_eq!(report.address.bytes[0] as usize, n);
        assert_eq!(record.hash[0] as usize, n);
        assert_eq!(record.timestamp, 1_000 + n as i64);
    }
}

#[test]
fn submit_report_accepts_a_digest_twice() {
    let hash = [0x5Au8; 32];
    let mut first = submission(treasury_with(0, 0), 0x11);
    assert_eq!(submit_report(&mut first, hash, 10), Ok(address(0x11)));
    let mut second = submission(first.treasury, 0x12);
    assert_eq!(submit_report(&mut second, hash, 11), Ok(address(0x12)));
    assert_eq!(second.treasury.data.total_reports, 2);
    let (one, two) = (first.report.data.unwrap(), second.report.data.unwrap());
    assert_eq!(one.hash, hash);
    assert_eq!(two.hash, hash);
    assert_ne!(first.report.address, second.report.address);
    assert_eq!((one.timestamp, two.timestamp), (10, 11));
    assert!(!one.verified && !two.verified);
}

#[test]
fn submit_report_fails_when_the_counter_is_full() {
    let mut ctx = submission(treasury_with(u64::MAX, 77), 0x11);
    let before = ctx;
    assert_eq!(
        submit_report(&mut ctx, [1u8; 32], 10),
        Err(Failure::Program(BriberyBusterError::MathOverflow))
    );
    assert_eq!(ctx, before);
    assert_eq!(ctx.report.data, None);
    assert_eq!(ctx.treasury.data.total_reports, u64::MAX);
}

#[test]
fn submit_report_fills_the_counter_to_its_last_value() {
    let mut ctx = submission(treasury_with(u64::MAX - 1, 0), 0x11);
    assert_eq!(submit_report(&mut ctx, [1u8; 32], 10), Ok(address(0x11)));
    assert_eq!(ctx.treasury.data.total_reports, u64::MAX);
}

#[test]
fn submit_report_needs_a_vacant_place() {
    let mut ctx = submission(treasury_with(5, 0), 0x11);
    ctx.report.data =
        Some(Report { reporter: address(1), hash: [2u8; 32], timestamp: 3, verified: false });
    let before = ctx;
    assert_eq!(submit_report(&mut ctx, [1u8; 32], 10), Err(Failure::AlreadyExists));
    assert_eq!(ctx, before);
}

#[test]
fn submit_report_does_not_look_at_the_treasury_address() {
    let mut treasury = treasury_with(0, 0);
    treasury.address = address(0x42);
    let mut ctx = submission(treasury, 0x11);
    assert_eq!(submit_report(&mut ctx, [1u8; 32], 10), Ok(address(0x11)));
    assert_eq!(ctx.treasury.data.total_reports, 1);
}

#[test]
fn reward_user_of_nothing_is_invalid_at_either_step() {
    let invalid = Err(Failure::Program(BriberyBusterError::InvalidAmount));
    let mut ctx = reward(treasury_with(1, 500));
    let before = ctx;
    assert_eq!(reward_user(&mut ctx, 0, RewardEvent::Requested), invalid);
    assert_eq!(reward_user(&mut ctx, 0, RewardEvent::Transferred(Ok(()))), invalid);
    assert_eq!(
        reward_user(&mut ctx, 0, RewardEvent::Transferred(Err(TransferError::InvalidAccount))),
        invalid
    );
    assert_eq!(ctx, before);

    let mut misplaced = reward(treasury_with(1, 500));
    misplaced.treasury.address = address(0x42);
    assert_eq!(reward_user(&mut misplaced, 0, RewardEvent::Requested), invalid);
}

#[test]
fn reward_user_asks_for_the_transfer_from_vault_to_recipient() {
    let treasury = treasury_with(1, 500);
    let mut ctx = reward(treasury);
    let before = ctx;
    let action = reward_user(&mut ctx, 250, RewardEvent::Requested).unwrap();
    assert_eq!(ctx, before);
    match action {
        RewardAction::Transfer(transfer) => {
            assert_eq!(transfer.from, address(0xC3));
            assert_eq!(transfer.to, address(0xD4));
            assert_eq!(transfer.amount, 250);
            assert_eq!(transfer.signer.address(), treasury.address);
            assert_eq!(transfer.signer.program_id(), PROGRAM);
            assert_eq!(
                transfer.signer.seeds(),
                vec![b"treasury".to_vec(), AUTHORITY.bytes.to_vec(), vec![treasury.data.bump]]
            );
        }
        RewardAction::Done => panic!("nothing was transferred yet"),
    }
}

#[test]
fn reward_user_counts_the_reward_once_it_was_transferred() {
    let mut ctx = reward(treasury_with(1, 500));
    assert_eq!(
        reward_user(&mut ctx, 250, RewardEvent::Transferred(Ok(()))),
        Ok(RewardAction::Done)
    );
    assert_eq!(ctx, reward(treasury_with(1, 750)));
}

#[test]
fn reward_user_passes_a_refusal_of_the_token_ledger_on() {
    for refusal in [
        TransferError::InsufficientBalance,
        TransferError::InvalidAccount,
        TransferError::Other(17),
    ] {
        let mut ctx = reward(treasury_with(1, 500));
        assert_eq!(
            reward_user(&mut ctx, 250, RewardEvent::Transferred(Err(refusal))),
            Err(Failure::Transfer(refusal))
        );
        assert_eq!(ctx, reward(treasury_with(1, 500)));
    }
}

#[test]
fn reward_user_fails_when_the_total_would_overflow() {
    let mut ctx = reward(treasury_with(1, u64::MAX - 249));
    assert_eq!(
        reward_user(&mut ctx, 250, RewardEvent::Transferred(Ok(()))),
        Err(Failure::Program(BriberyBusterError::MathOverflow))
    );
    assert_eq!(ctx, reward(treasury_with(1, u64::MAX - 249)));
    assert_eq!(
        reward_user(&mut ctx, 249, RewardEvent::Transferred(Ok(()))),
        Ok(RewardAction::Done)
    );
    assert_eq!(ctx.treasury.data.total_rewards_distributed, u64::MAX);
}

#[test]
fn reward_user_refuses_a_treasury_that_is_not_at_its_derived_address() {
    let mut misplaced = reward(treasury_with(1, 500));
    misplaced.treasury.address = address(0x42);
    let mut forged = reward(treasury_with(1, 500));
    forged.treasury.data.authority = address(0xA2);
    let mut foreign = reward(treasury_with(1, 500));
    foreign.program_id = address(8);
    for ctx in [misplaced, forged, foreign] {
        for event in [RewardEvent::Requested, RewardEvent::Transferred(Ok(()))] {
            let mut accounts = ctx;
            assert_eq!(reward_user(&mut accounts, 250, event), Err(Failure::AddressMismatch));
            assert_eq!(accounts, ctx);
        }
    }
}

#[test]
fn errors_describe_themselves() {
    assert_eq!(BriberyBusterError::InvalidAmount.message(), "Invalid amount provided");
    assert_eq!(BriberyBusterError::MathOverflow.message(), "Mathematical operation overflow");
    assert_eq!(BriberyBusterError::Unauthorized.message(), "Unauthorized access");
    assert_eq!(BriberyBusterError::AlreadyVerified.message(), "Report already verified");
    assert_eq!(BriberyBusterError::InsufficientBalance.message(), "Insufficient treasury balance");
    assert_eq!(BriberyBusterError::InvalidHash.message(), "Invalid report hash");
}

#[test]
fn records_have_their_fixed_sizes() {
    assert_eq!(Treasury::INIT_SPACE, 49);
    assert_eq!(Report::INIT_SPACE, 73);
}
