use escrow_contract::contract::EscrowContract;
use escrow_contract::events::Event;
use escrow_contract::release::{split_fee, FeeSplit};
use escrow_contract::types::{
    Address, Env, EscrowError, EscrowStatus, Evidence, MilestoneInput, MilestoneStatus,
    TokenTransfer,
};

fn addr(b: u8) -> Address {
    Address::from([b; 20])
}

fn alice() -> Address {
    addr(0x01)
}

fn bob() -> Address {
    addr(0x02)
}

fn charlie() -> Address {
    addr(0x03)
}

fn eve() -> Address {
    addr(0x05)
}

fn frank() -> Address {
    addr(0x06)
}

fn env(caller: Address) -> Env {
    Env { caller, block_timestamp: 1_700_000_000_000, block_number: 7 }
}

fn input(id: &str, amount: &str, status: &str) -> MilestoneInput {
    MilestoneInput {
        id: id.to_string(),
        description: "Task".to_string(),
        amount: amount.to_string(),
        status: status.to_string(),
        deadline: 1000000,
        completed_at: None,
        dispute_reason: None,
        dispute_filed_by: None,
        completion_note: None,
        evidence_file: None,
    }
}

/// A ledger set up by Alice, with one escrow from Alice to Bob.
fn ledger_with(milestones: Vec<MilestoneInput>) -> (EscrowContract, String) {
    let mut contract = EscrowContract::new(env(alice()), frank(), eve());
    let escrow_id = contract
        .create_escrow(
            env(alice()),
            bob(),
            "provider".to_string(),
            "Active".to_string(),
            "Test".to_string(),
            "Desc".to_string(),
            "100".to_string(),
            milestones,
            None,
        )
        .unwrap();
    contract.take_events();
    (contract, escrow_id)
}

#[test]
fn test_fee_calculation_no_overflow() {
    let contract = EscrowContract::new(env(alice()), frank(), eve());

    let amount: u128 = 1_000_000_000_000_000;
    let fee = amount.checked_mul(contract.fee_bps as u128).and_then(|r| r.checked_div(10000));

    assert!(fee.is_some());
    assert_eq!(fee.unwrap(), 10_000_000_000_000);
    assert_eq!(
        split_fee(amount, contract.fee_bps),
        Ok(FeeSplit { fee: 10_000_000_000_000, release_amount: 990_000_000_000_000 })
    );
}

#[test]
fn test_total_volume_no_overflow() {
    let mut contract = EscrowContract::new(env(alice()), frank(), eve());

    contract.total_volume = u128::MAX - 1000;

    let result = contract.total_volume.checked_add(500);
    assert!(result.is_some());
    assert_eq!(result.unwrap(), u128::MAX - 500);

    let overflow_result = contract.total_volume.checked_add(2000);
    assert!(overflow_result.is_none());
}

#[test]
fn test_release_refused_when_the_volume_would_overflow() {
    let (mut contract, escrow_id) = ledger_with(vec![input("m1", "0.002", "Pending")]);
    contract.notify_deposit(escrow_id.clone(), "0.002".to_string(), 2000).unwrap();
    contract.total_volume = u128::MAX - 1000;

    let result = contract.release_milestone(env(alice()), escrow_id.clone(), "m1".to_string(), 2000);
    assert_eq!(result, Err(EscrowError::ArithmeticOverflow));
    // The overflow is found before the custody balance is looked at.
    assert_eq!(
        contract.release_precheck(env(alice()), &escrow_id, "m1"),
        Err(EscrowError::ArithmeticOverflow)
    );
    assert_eq!(
        contract.release_milestone(env(alice()), escrow_id.clone(), "m1".to_string(), 0),
        Err(EscrowError::ArithmeticOverflow)
    );
    assert_eq!(contract.total_volume, u128::MAX - 1000);
    assert_eq!(
        contract.get_escrow_milestone(escrow_id.clone(), "m1".to_string()).unwrap().status,
        MilestoneStatus::Pending
    );

    contract.total_volume = u128::MAX - 2000;
    assert_eq!(contract.release_precheck(env(alice()), &escrow_id, "m1"), Ok(2000));
    assert!(contract.release_milestone(env(alice()), escrow_id, "m1".to_string(), 2000).is_ok());
    assert_eq!(contract.total_volume, u128::MAX);
}

#[test]
fn test_split_fee() {
    assert_eq!(split_fee(100_500_000, 100), Ok(FeeSplit { fee: 1_005_000, release_amount: 99_495_000 }));
    assert_eq!(split_fee(10_000, 100), Ok(FeeSplit { fee: 100, release_amount: 9_900 }));
    assert_eq!(split_fee(5_000, 100), Ok(FeeSplit { fee: 50, release_amount: 4_950 }));
    assert_eq!(split_fee(100, 100), Ok(FeeSplit { fee: 1, release_amount: 99 }));
    // rounded down
    assert_eq!(split_fee(99, 100), Ok(FeeSplit { fee: 0, release_amount: 99 }));
    assert_eq!(split_fee(199, 100), Ok(FeeSplit { fee: 1, release_amount: 198 }));
    assert_eq!(split_fee(1_000, 0), Ok(FeeSplit { fee: 0, release_amount: 1_000 }));
    assert_eq!(split_fee(1_000, 10_000), Ok(FeeSplit { fee: 1_000, release_amount: 0 }));
    assert_eq!(split_fee(0, 10_000), Ok(FeeSplit { fee: 0, release_amount: 0 }));
    assert_eq!(split_fee(1_000, 10_001), Err(EscrowError::FeeTooHigh));
    assert_eq!(split_fee(u128::MAX, 10_001), Err(EscrowError::FeeTooHigh));
    assert_eq!(split_fee(u128::MAX, 2), Err(EscrowError::ArithmeticOverflow));
    assert_eq!(split_fee(u128::MAX, 1), Ok(FeeSplit { fee: u128::MAX / 10_000, release_amount: u128::MAX - u128::MAX / 10_000 }));
    assert_eq!(split_fee(u128::MAX, 0), Ok(FeeSplit { fee: 0, release_amount: u128::MAX }));
}

#[test]
fn test_fee_and_payout_add_up() {
    let amounts: [u128; 7] = [0, 1, 99, 100, 12_345, 100_500_000, 987_654_321_987_654_321];
    let fees: [u16; 6] = [0, 1, 100, 250, 9_999, 10_000];
    for amount in amounts {
        for fee_bps in fees {
            let split = split_fee(amount, fee_bps).unwrap();
            assert_eq!(split.fee, amount * fee_bps as u128 / 10_000);
            assert_eq!(split.fee + split.release_amount, amount);
        }
    }
}

#[test]
fn test_release_milestone_fee_too_high_short_circuits() {
    let (mut contract, escrow_id) = ledger_with(vec![input("m1", "100", "Pending")]);

    contract.fee_bps = 10_001;
    let result = contract.release_milestone(env(alice()), escrow_id, "m1".to_string(), 0);
    assert_eq!(result, Err(EscrowError::FeeTooHigh));
}

#[test]
fn test_release_milestone_insufficient_deposit_stops_before_psp22() {
    let (mut contract, escrow_id) = ledger_with(vec![input("m1", "100", "Pending")]);

    let result = contract.release_milestone(env(alice()), escrow_id, "m1".to_string(), u128::MAX);
    assert_eq!(result, Err(EscrowError::InsufficientBalance));
}

#[test]
fn test_release_scenario() {
    // Token decimals 6, fee 100 basis points, milestone amount "100.50".
    let (mut contract, escrow_id) =
        ledger_with(vec![input("m1", "100.50", "Pending"), input("m2", "1500", "Pending")]);
    assert_eq!(contract.token_decimals, 6);
    assert_eq!(contract.fee_bps, 100);

    let total =
        contract.notify_deposit(escrow_id.clone(), "100.50".to_string(), 100_500_000).unwrap();
    assert_eq!(total, 100_500_000);

    let release = contract
        .release_milestone(env(alice()), escrow_id.clone(), "m1".to_string(), 100_500_000)
        .unwrap();

    assert_eq!(release.payout, TokenTransfer { token: frank(), to: bob(), value: 99_495_000 });
    assert_eq!(release.fee, Some(TokenTransfer { token: frank(), to: eve(), value: 1_005_000 }));
    assert_eq!(release.payout.value + release.fee.unwrap().value, 100_500_000);
    assert_eq!(release.response.transaction_hash, "tx_1700000000000");
    assert_eq!(release.response.status, "success");
    assert_eq!(release.response.message, "Milestone funds released successfully");
    assert_eq!(release.response.receiver_account_id, bob());
    assert_eq!(release.response.payer_account_id, alice());

    let escrow = contract.get_escrow(escrow_id.clone()).unwrap();
    assert_eq!(escrow.milestones[0].status, MilestoneStatus::Funded);
    assert_eq!(escrow.milestones[1].status, MilestoneStatus::Pending);
    assert_eq!(contract.total_volume, 100_500_000);
    assert_eq!(contract.escrow_deposits.get(&escrow_id), Some(&0));

    let events = contract.take_events();
    assert_eq!(events.len(), 1);
    match &events[0] {
        Event::MilestoneReleased(e) => {
            assert_eq!(e.escrow_id, escrow_id);
            assert_eq!(e.milestone_id, "m1");
            assert_eq!(e.receiver_account_id, bob());
            assert_eq!(e.payer_account_id, alice());
            assert_eq!(e.amount, "100.50");
            assert_eq!(e.transaction_hash, "tx_1700000000000");
        },
        other => panic!("unexpected event {:?}", other),
    }

    // The deposit is spent: the second milestone is not covered.
    assert_eq!(
        contract.release_milestone(env(bob()), escrow_id, "m2".to_string(), u128::MAX),
        Err(EscrowError::InsufficientBalance)
    );
}

#[test]
fn test_release_without_fee_owes_no_fee_transfer() {
    let (mut contract, escrow_id) = ledger_with(vec![input("m1", "0.000099", "Pending")]);
    contract.notify_deposit(escrow_id.clone(), "1".to_string(), 1_000_000).unwrap();

    let release =
        contract.release_milestone(env(bob()), escrow_id.clone(), "m1".to_string(), 1_000_000).unwrap();
    assert_eq!(release.payout.value, 99);
    assert_eq!(release.fee, None);
    assert_eq!(contract.escrow_deposits.get(&escrow_id), Some(&999_901));
}

#[test]
fn test_release_errors_in_their_order() {
    let (mut contract, escrow_id) = ledger_with(vec![
        input("m1", "100", "Pending"),
        input("bad", "1o0", "Pending"),
        input("paid", "1o0", "Funded"),
    ]);

    contract.paused = true;
    assert_eq!(
        contract.release_milestone(env(charlie()), "nowhere".to_string(), "m1".to_string(), 0),
        Err(EscrowError::ContractPaused)
    );
    contract.paused = false;
    assert_eq!(
        contract.release_milestone(env(charlie()), "nowhere".to_string(), "m1".to_string(), 0),
        Err(EscrowError::EscrowNotFound)
    );
    assert_eq!(
        contract.release_milestone(env(charlie()), escrow_id.clone(), "m9".to_string(), 0),
        Err(EscrowError::Unauthorized)
    );
    assert_eq!(
        contract.release_milestone(env(alice()), escrow_id.clone(), "m9".to_string(), 0),
        Err(EscrowError::MilestoneNotFound)
    );
    contract.fee_bps = 10_001;
    // The state of the milestone is looked at before its amount.
    assert_eq!(
        contract.release_milestone(env(alice()), escrow_id.clone(), "paid".to_string(), 0),
        Err(EscrowError::InvalidStatus)
    );
    assert_eq!(
        contract.release_milestone(env(alice()), escrow_id.clone(), "bad".to_string(), 0),
        Err(EscrowError::InvalidAmount)
    );
    assert_eq!(
        contract.release_milestone(env(alice()), escrow_id.clone(), "m1".to_string(), 0),
        Err(EscrowError::FeeTooHigh)
    );
    contract.fee_bps = 100;
    assert_eq!(
        contract.release_milestone(env(alice()), escrow_id.clone(), "m1".to_string(), 0),
        Err(EscrowError::InsufficientBalance)
    );
    contract.notify_deposit(escrow_id.clone(), "100".to_string(), 100_000_000).unwrap();
    // The deposit covers the amount; the custody balance does not.
    assert_eq!(
        contract.release_milestone(env(alice()), escrow_id.clone(), "m1".to_string(), 99_999_999),
        Err(EscrowError::InsufficientBalance)
    );
    assert_eq!(contract.total_volume, 0);
    assert!(contract.events.is_empty());
    assert_eq!(contract.escrow_deposits.get(&escrow_id), Some(&100_000_000));
    assert!(contract
        .release_milestone(env(alice()), escrow_id.clone(), "m1".to_string(), 100_000_000)
        .is_ok());
}

#[test]
fn test_release_refused_when_the_fee_overflows() {
    let (mut contract, escrow_id) =
        ledger_with(vec![input("m1", "340282366920938463463374607431768211455", "Pending")]);
    contract.token_decimals = 0;
    assert_eq!(
        contract.release_milestone(env(alice()), escrow_id, "m1".to_string(), u128::MAX),
        Err(EscrowError::ArithmeticOverflow)
    );
}

#[test]
fn test_notify_deposit() {
    let (mut contract, escrow_id) = ledger_with(vec![input("m1", "100", "Pending")]);

    assert_eq!(
        contract.notify_deposit(escrow_id.clone(), "abc".to_string(), u128::MAX),
        Err(EscrowError::InvalidAmount)
    );
    assert_eq!(
        contract.notify_deposit(escrow_id.clone(), "100".to_string(), 99_999_999),
        Err(EscrowError::InsufficientBalance)
    );
    assert_eq!(contract.escrow_deposits.get(&escrow_id), None);
    assert_eq!(contract.notify_deposit(escrow_id.clone(), "100".to_string(), 100_000_000), Ok(100_000_000));
    // The custody balance must cover the cumulative total.
    assert_eq!(
        contract.notify_deposit(escrow_id.clone(), "50".to_string(), 149_999_999),
        Err(EscrowError::InsufficientBalance)
    );
    assert_eq!(contract.notify_deposit(escrow_id.clone(), "50".to_string(), 150_000_000), Ok(150_000_000));
    assert_eq!(contract.escrow_deposits.get(&escrow_id), Some(&150_000_000));

    contract.paused = true;
    assert_eq!(
        contract.notify_deposit(escrow_id, "50".to_string(), u128::MAX),
        Err(EscrowError::ContractPaused)
    );
}

#[test]
fn test_deposit_total_beyond_128_bits_is_refused() {
    let (mut contract, escrow_id) = ledger_with(vec![]);
    contract.token_decimals = 0;
    let max = "340282366920938463463374607431768211455";
    assert_eq!(
        contract.notify_deposit(escrow_id.clone(), "340282366920938463463374607431768211450".to_string(), u128::MAX),
        Ok(u128::MAX - 5)
    );
    assert_eq!(
        contract.notify_deposit(escrow_id.clone(), "6".to_string(), u128::MAX),
        Err(EscrowError::ArithmeticOverflow)
    );
    assert_eq!(
        contract.notify_deposit(escrow_id.clone(), max.to_string(), u128::MAX),
        Err(EscrowError::ArithmeticOverflow)
    );
    assert_eq!(contract.escrow_deposits.get(&escrow_id), Some(&(u128::MAX - 5)));
    // The overflow is found before the custody balance is looked at.
    assert_eq!(
        contract.notify_deposit(escrow_id.clone(), "6".to_string(), 0),
        Err(EscrowError::ArithmeticOverflow)
    );
    assert_eq!(contract.notify_deposit(escrow_id.clone(), "5".to_string(), u128::MAX), Ok(u128::MAX));
    assert_eq!(
        contract.notify_deposit(escrow_id, "0".to_string(), u128::MAX - 1),
        Err(EscrowError::InsufficientBalance)
    );
}

#[test]
fn test_deposit_precheck() {
    let (mut contract, escrow_id) = ledger_with(vec![input("m1", "100", "Pending")]);

    assert_eq!(contract.deposit_precheck(&"nowhere".to_string(), "100"), Err(EscrowError::EscrowNotFound));
    assert_eq!(contract.deposit_precheck(&escrow_id, "abc"), Err(EscrowError::InvalidAmount));
    assert_eq!(contract.deposit_precheck(&escrow_id, "100"), Ok(100_000_000));
    contract.notify_deposit(escrow_id.clone(), "100".to_string(), 100_000_000).unwrap();
    // What the custody balance has to cover is the cumulative total.
    assert_eq!(contract.deposit_precheck(&escrow_id, "50"), Ok(150_000_000));
    assert_eq!(
        contract.deposit_precheck(&escrow_id, "340282366920938463463374607431768"),
        Err(EscrowError::ArithmeticOverflow)
    );
    contract.paused = true;
    assert_eq!(contract.deposit_precheck(&escrow_id, "50"), Err(EscrowError::ContractPaused));
}

#[test]
fn test_release_precheck() {
    let (mut contract, escrow_id) = ledger_with(vec![
        input("m1", "100", "Pending"),
        input("funded", "100", "Funded"),
        input("bad", "1o0", "Pending"),
    ]);

    assert_eq!(
        contract.release_precheck(env(alice()), &"nowhere".to_string(), "m1"),
        Err(EscrowError::EscrowNotFound)
    );
    assert_eq!(
        contract.release_precheck(env(charlie()), &escrow_id, "m1"),
        Err(EscrowError::Unauthorized)
    );
    assert_eq!(
        contract.release_precheck(env(alice()), &escrow_id, "m9"),
        Err(EscrowError::MilestoneNotFound)
    );
    assert_eq!(
        contract.release_precheck(env(alice()), &escrow_id, "funded"),
        Err(EscrowError::InvalidStatus)
    );
    assert_eq!(
        contract.release_precheck(env(alice()), &escrow_id, "bad"),
        Err(EscrowError::InvalidAmount)
    );
    assert_eq!(
        contract.release_precheck(env(alice()), &escrow_id, "m1"),
        Err(EscrowError::InsufficientBalance)
    );
    contract.notify_deposit(escrow_id.clone(), "100".to_string(), 100_000_000).unwrap();
    assert_eq!(contract.release_precheck(env(bob()), &escrow_id, "m1"), Ok(100_000_000));
    contract.fee_bps = 10_001;
    assert_eq!(
        contract.release_precheck(env(bob()), &escrow_id, "m1"),
        Err(EscrowError::FeeTooHigh)
    );
    contract.paused = true;
    assert_eq!(
        contract.release_precheck(env(bob()), &escrow_id, "m1"),
        Err(EscrowError::ContractPaused)
    );
}

#[test]
fn test_milestone_is_released_at_most_once() {
    let (mut contract, escrow_id) = ledger_with(vec![input("m1", "100", "Done")]);
    contract.notify_deposit(escrow_id.clone(), "300".to_string(), 300_000_000).unwrap();

    contract
        .release_milestone(env(alice()), escrow_id.clone(), "m1".to_string(), 300_000_000)
        .unwrap();
    contract.take_events();

    // Deposit and custody would cover a second release; the state forbids it.
    assert_eq!(
        contract.release_milestone(env(alice()), escrow_id.clone(), "m1".to_string(), 300_000_000),
        Err(EscrowError::InvalidStatus)
    );
    assert_eq!(
        contract.release_milestone(env(bob()), escrow_id.clone(), "m1".to_string(), u128::MAX),
        Err(EscrowError::InvalidStatus)
    );
    assert_eq!(contract.total_volume, 100_000_000);
    assert_eq!(contract.escrow_deposits.get(&escrow_id), Some(&200_000_000));
    assert!(contract.events.is_empty());

    contract.complete_milestone(env(alice()), escrow_id.clone(), "m1".to_string()).unwrap();
    contract.take_events();
    assert_eq!(
        contract.release_milestone(env(alice()), escrow_id.clone(), "m1".to_string(), 300_000_000),
        Err(EscrowError::InvalidStatus)
    );
    assert_eq!(contract.total_volume, 100_000_000);
    assert_eq!(contract.escrow_deposits.get(&escrow_id), Some(&200_000_000));
    assert_eq!(
        contract.get_escrow_milestone(escrow_id, "m1".to_string()).unwrap().status,
        MilestoneStatus::Completed
    );
}

#[test]
fn test_release_from_every_other_state() {
    for status in ["Pending", "InProgress", "Done", "Disputed", "Overdue"] {
        let (mut contract, escrow_id) = ledger_with(vec![input("m1", "1", status)]);
        contract.notify_deposit(escrow_id.clone(), "1".to_string(), 1_000_000).unwrap();
        assert!(contract
            .release_milestone(env(alice()), escrow_id.clone(), "m1".to_string(), 1_000_000)
            .is_ok());
    }
    for status in ["Funded", "Completed"] {
        let (mut contract, escrow_id) = ledger_with(vec![input("m1", "1", status)]);
        contract.notify_deposit(escrow_id.clone(), "1".to_string(), 1_000_000).unwrap();
        assert_eq!(
            contract.release_milestone(env(alice()), escrow_id.clone(), "m1".to_string(), 1_000_000),
            Err(EscrowError::InvalidStatus)
        );
    }
}

#[test]
fn test_complete_milestone_task_sets_done_and_evidence() {
    let (mut contract, escrow_id) = ledger_with(vec![input("m1", "100", "InProgress")]);

    contract
        .complete_milestone_task(
            env(bob()),
            escrow_id.clone(),
            "m1".to_string(),
            Some("Done".to_string()),
            Some(vec![Evidence { name: "file".to_string(), url: "ipfs://file".to_string() }]),
        )
        .unwrap();

    let milestone = contract.get_escrow_milestone(escrow_id, "m1".to_string()).unwrap();
    assert_eq!(milestone.status, MilestoneStatus::Done);
    assert_eq!(milestone.completion_note, Some("Done".to_string()));
    assert!(milestone.completed_at.is_some());
    assert_eq!(milestone.completed_at, Some(1_700_000_000_000));
    let evidence = milestone.evidence_file.expect("evidence saved");
    assert_eq!(evidence.len(), 1);
    assert_eq!(evidence[0].url, "ipfs://file");
}

#[test]
fn test_milestone_task_completion() {
    let usdt_token = Address::from([0x01; 20]);
    let fee_account = Address::from([0x02; 20]);
    let mut contract = EscrowContract::new(env(alice()), usdt_token, fee_account);

    let milestones = vec![MilestoneInput {
        id: "m1".to_string(),
        description: "Task 1".to_string(),
        amount: "100".to_string(),
        status: "InProgress".to_string(),
        deadline: 1000000,
        completed_at: None,
        dispute_reason: None,
        dispute_filed_by: None,
        completion_note: None,
        evidence_file: None,
    }];

    let result = contract.create_escrow(
        env(alice()),
        bob(),
        "counterparty".to_string(),
        "Active".to_string(),
        "Test Escrow".to_string(),
        "Description".to_string(),
        "100".to_string(),
        milestones,
        None,
    );
    assert!(result.is_ok());
    let escrow_id = result.unwrap();

    let evidence = vec![Evidence {
        name: "proof.pdf".to_string(),
        url: "https://example.com/proof.pdf".to_string(),
    }];

    let complete_result = contract.complete_milestone_task(
        env(bob()),
        escrow_id.clone(),
        "m1".to_string(),
        Some("Task completed successfully".to_string()),
        Some(evidence),
    );
    assert!(complete_result.is_ok());

    let milestone = contract.get_escrow_milestone(escrow_id, "m1".to_string());
    assert!(milestone.is_ok());
    let m = milestone.unwrap();
    assert_eq!(m.status, MilestoneStatus::Done);
    assert_eq!(m.completion_note, Some("Task completed successfully".to_string()));
    assert!(m.completed_at.is_some());
    assert!(m.evidence_file.is_some());
}

#[test]
fn test_complete_milestone_task_rules() {
    let mut with_note = input("m1", "100", "InProgress");
    with_note.completion_note = Some("earlier".to_string());
    let (mut contract, escrow_id) = ledger_with(vec![with_note, input("m2", "100", "Pending")]);

    // Only the counterparty may report a task as done.
    assert_eq!(
        contract.complete_milestone_task(env(alice()), escrow_id.clone(), "m1".to_string(), None, None),
        Err(EscrowError::Unauthorized)
    );
    assert_eq!(
        contract.complete_milestone_task(env(bob()), escrow_id.clone(), "m9".to_string(), None, None),
        Err(EscrowError::MilestoneNotFound)
    );
    assert_eq!(
        contract.complete_milestone_task(env(bob()), escrow_id.clone(), "m2".to_string(), None, None),
        Err(EscrowError::InvalidStatus)
    );
    assert!(contract.events.is_empty());

    // Without a note and evidence what was stored stays.
    contract
        .complete_milestone_task(env(bob()), escrow_id.clone(), "m1".to_string(), None, None)
        .unwrap();
    let m = contract.get_escrow_milestone(escrow_id.clone(), "m1".to_string()).unwrap();
    assert_eq!(m.status, MilestoneStatus::Done);
    assert_eq!(m.completion_note, Some("earlier".to_string()));
    assert_eq!(m.evidence_file, None);

    let events = contract.take_events();
    assert_eq!(events.len(), 1);
    match &events[0] {
        Event::MilestoneStatusChanged(e) => {
            assert_eq!(e.escrow_id, escrow_id);
            assert_eq!(e.milestone_id, "m1");
            assert_eq!(e.old_status, MilestoneStatus::InProgress);
            assert_eq!(e.new_status, MilestoneStatus::Done);
        },
        other => panic!("unexpected event {:?}", other),
    }

    // A task that is done cannot be reported again.
    assert_eq!(
        contract.complete_milestone_task(env(bob()), escrow_id, "m1".to_string(), None, None),
        Err(EscrowError::InvalidStatus)
    );
}

#[test]
fn test_complete_milestone_sets_completed_and_updates_escrow() {
    let (mut contract, escrow_id) = ledger_with(vec![input("m1", "100", "Funded")]);

    contract.complete_milestone(env(alice()), escrow_id.clone(), "m1".to_string()).unwrap();

    let milestone = contract.get_escrow_milestone(escrow_id.clone(), "m1".to_string()).unwrap();
    assert_eq!(milestone.status, MilestoneStatus::Completed);

    let escrow = contract.get_escrow(escrow_id).unwrap();
    assert_eq!(escrow.status, EscrowStatus::Completed);
}

#[test]
fn test_escrow_completes_with_its_last_milestone() {
    let (mut contract, escrow_id) =
        ledger_with(vec![input("m1", "100", "Funded"), input("m2", "100", "Funded")]);

    contract.complete_milestone(env(alice()), escrow_id.clone(), "m1".to_string()).unwrap();
    // One milestone is not completed: the escrow keeps its status.
    assert_eq!(contract.get_escrow(escrow_id.clone()).unwrap().status, EscrowStatus::Active);
    assert_eq!(contract.take_events().len(), 1);

    contract.complete_milestone(env(bob()), escrow_id.clone(), "m2".to_string()).unwrap();
    let escrow = contract.get_escrow(escrow_id.clone()).unwrap();
    assert_eq!(escrow.milestones[0].status, MilestoneStatus::Completed);
    assert_eq!(escrow.milestones[1].status, MilestoneStatus::Completed);
    assert_eq!(escrow.status, EscrowStatus::Completed);

    let events = contract.take_events();
    assert_eq!(events.len(), 2);
    match &events[1] {
        Event::EscrowStatusChanged(e) => {
            assert_eq!(e.escrow_id, escrow_id);
            assert_eq!(e.old_status, EscrowStatus::Active);
            assert_eq!(e.new_status, EscrowStatus::Completed);
            assert_eq!(e.transaction_hash, None);
        },
        other => panic!("unexpected event {:?}", other),
    }

    // With every milestone completed there is nothing left to complete.
    assert_eq!(
        contract.complete_milestone(env(alice()), escrow_id, "m1".to_string()),
        Err(EscrowError::InvalidStatus)
    );
}

#[test]
fn test_complete_milestone_needs_a_funded_milestone() {
    let (mut contract, escrow_id) =
        ledger_with(vec![input("m1", "100", "Done"), input("m2", "100", "Funded")]);

    assert_eq!(
        contract.complete_milestone(env(alice()), escrow_id.clone(), "m1".to_string()),
        Err(EscrowError::InvalidStatus)
    );
    assert_eq!(
        contract.complete_milestone(env(charlie()), escrow_id.clone(), "m2".to_string()),
        Err(EscrowError::Unauthorized)
    );
    assert_eq!(
        contract.complete_milestone(env(alice()), escrow_id.clone(), "m3".to_string()),
        Err(EscrowError::MilestoneNotFound)
    );
    contract.complete_milestone(env(alice()), escrow_id.clone(), "m2".to_string()).unwrap();
    assert_eq!(contract.get_escrow(escrow_id).unwrap().status, EscrowStatus::Active);
}

#[test]
fn test_release_then_complete() {
    let (mut contract, escrow_id) = ledger_with(vec![input("m1", "100", "Done")]);
    contract.notify_deposit(escrow_id.clone(), "100".to_string(), 100_000_000).unwrap();
    contract
        .release_milestone(env(alice()), escrow_id.clone(), "m1".to_string(), 100_000_000)
        .unwrap();
    contract.complete_milestone(env(alice()), escrow_id.clone(), "m1".to_string()).unwrap();
    assert_eq!(contract.get_escrow(escrow_id).unwrap().status, EscrowStatus::Completed);
}

#[test]
fn test_milestone_completion_updates_escrow() {
    let usdt_token = Address::from([0x01; 20]);
    let fee_account = Address::from([0x02; 20]);
    let mut contract = EscrowContract::new(env(alice()), usdt_token, fee_account);

    let milestones = vec![MilestoneInput {
        id: "m1".to_string(),
        description: "Task 1".to_string(),
        amount: "100".to_string(),
        status: "Funded".to_string(),
        deadline: 1000000,
        completed_at: None,
        dispute_reason: None,
        dispute_filed_by: None,
        completion_note: None,
        evidence_file: None,
    }];

    let result = contract.create_escrow(
        env(alice()),
        bob(),
        "counterparty".to_string(),
        "Active".to_string(),
        "Test Escrow".to_string(),
        "Description".to_string(),
        "100".to_string(),
        milestones,
        None,
    );
    assert!(result.is_ok());
    let escrow_id = result.unwrap();

    let milestone = contract.get_escrow_milestone(escrow_id.clone(), "m1".to_string()).unwrap();
    let mut updated_milestone = milestone.clone();
    updated_milestone.status = MilestoneStatus::Completed;

    let update_result = contract.update_escrow_milestone_status(
        env(alice()),
        escrow_id.clone(),
        updated_milestone,
        "Completed".to_string(),
    );
    assert!(update_result.is_ok());

    let check_result = contract.check_and_update_escrow_completion(escrow_id.clone());
    assert!(check_result.is_ok());
    assert_eq!(check_result.unwrap(), true);

    let escrow = contract.get_escrow(escrow_id);
    assert!(escrow.is_ok());
    assert_eq!(escrow.unwrap().status, EscrowStatus::Completed);
}

#[test]
fn test_check_and_update_already_completed() {
    let usdt_token = Address::from([0x01; 20]);
    let fee_account = Address::from([0x02; 20]);
    let mut contract = EscrowContract::new(env(alice()), usdt_token, fee_account);

    let milestones = vec![MilestoneInput {
        id: "m1".to_string(),
        description: "Task 1".to_string(),
        amount: "100".to_string(),
        status: "Completed".to_string(),
        deadline: 1000000,
        completed_at: None,
        dispute_reason: None,
        dispute_filed_by: None,
        completion_note: None,
        evidence_file: None,
    }];

    let result = contract.create_escrow(
        env(alice()),
        bob(),
        "counterparty".to_string(),
        "Completed".to_string(),
        "Test Escrow".to_string(),
        "Description".to_string(),
        "100".to_string(),
        milestones,
        None,
    );
    assert!(result.is_ok());
    let escrow_id = result.unwrap();

    let check_result = contract.check_and_update_escrow_completion(escrow_id);
    assert!(check_result.is_ok());
    assert_eq!(check_result.unwrap(), false);
}

#[test]
fn test_check_and_update_not_all_completed() {
    let usdt_token = Address::from([0x01; 20]);
    let fee_account = Address::from([0x02; 20]);
    let mut contract = EscrowContract::new(env(alice()), usdt_token, fee_account);

    let milestones = vec![MilestoneInput {
        id: "m1".to_string(),
        description: "Task 1".to_string(),
        amount: "100".to_string(),
        status: "InProgress".to_string(),
        deadline: 1000000,
        completed_at: None,
        dispute_reason: None,
        dispute_filed_by: None,
        completion_note: None,
        evidence_file: None,
    }];

    let result = contract.create_escrow(
        env(alice()),
        bob(),
        "counterparty".to_string(),
        "Active".to_string(),
        "Test Escrow".to_string(),
        "Description".to_string(),
        "100".to_string(),
        milestones,
        None,
    );
    assert!(result.is_ok());
    let escrow_id = result.unwrap();

    let check_result = contract.check_and_update_escrow_completion(escrow_id);
    assert!(check_result.is_ok());
    assert_eq!(check_result.unwrap(), false);
}

#[test]
fn test_check_and_update_needs_a_milestone() {
    let (mut contract, escrow_id) = ledger_with(vec![]);
    assert_eq!(contract.check_and_update_escrow_completion(escrow_id.clone()), Ok(false));
    assert_eq!(contract.get_escrow(escrow_id).unwrap().status, EscrowStatus::Active);
    assert_eq!(
        contract.check_and_update_escrow_completion("nowhere".to_string()),
        Err(EscrowError::EscrowNotFound)
    );
}

#[test]
fn test_dispute_milestone() {
    let usdt_token = Address::from([0x01; 20]);
    let fee_account = Address::from([0x02; 20]);
    let mut contract = EscrowContract::new(env(alice()), usdt_token, fee_account);

    let milestones = vec![MilestoneInput {
        id: "m1".to_string(),
        description: "Task 1".to_string(),
        amount: "100".to_string(),
        status: "InProgress".to_string(),
        deadline: 1000000,
        completed_at: None,
        dispute_reason: None,
        dispute_filed_by: None,
        completion_note: None,
        evidence_file: None,
    }];

    let result = contract.create_escrow(
        env(alice()),
        bob(),
        "counterparty".to_string(),
        "Active".to_string(),
        "Test Escrow".to_string(),
        "Description".to_string(),
        "100".to_string(),
        milestones,
        None,
    );
    assert!(result.is_ok());
    let escrow_id = result.unwrap();

    let dispute_result = contract.dispute_milestone(
        env(alice()),
        escrow_id.clone(),
        "m1".to_string(),
        "Quality issue".to_string(),
    );
    assert!(dispute_result.is_ok());
    let response = dispute_result.unwrap();
    assert_eq!(response.dispute_id, "dispute_escrow_1_m1");
    assert_eq!(response.status, "disputed");
    assert_eq!(response.message, "Milestone has been disputed");

    let milestone = contract.get_escrow_milestone(escrow_id, "m1".to_string());
    assert!(milestone.is_ok());
    let m = milestone.unwrap();
    assert_eq!(m.status, MilestoneStatus::Disputed);
    assert_eq!(m.dispute_reason, Some("Quality issue".to_string()));
    assert_eq!(m.dispute_filed_by, Some(alice()));
}

#[test]
fn test_dispute_from_any_state_by_either_party() {
    let (mut contract, escrow_id) = ledger_with(vec![input("m1", "100", "Completed")]);

    assert_eq!(
        contract.dispute_milestone(env(charlie()), escrow_id.clone(), "m1".to_string(), "r".to_string()),
        Err(EscrowError::Unauthorized)
    );
    assert_eq!(
        contract.dispute_milestone(env(bob()), escrow_id.clone(), "m2".to_string(), "r".to_string()),
        Err(EscrowError::MilestoneNotFound)
    );
    contract
        .dispute_milestone(env(bob()), escrow_id.clone(), "m1".to_string(), "late".to_string())
        .unwrap();
    let m = contract.get_escrow_milestone(escrow_id.clone(), "m1".to_string()).unwrap();
    assert_eq!(m.status, MilestoneStatus::Disputed);
    assert_eq!(m.dispute_filed_by, Some(bob()));
    // The escrow itself is not touched.
    assert_eq!(contract.get_escrow(escrow_id.clone()).unwrap().status, EscrowStatus::Active);

    let events = contract.take_events();
    assert_eq!(events.len(), 1);
    match &events[0] {
        Event::MilestoneDisputed(e) => {
            assert_eq!(e.escrow_id, escrow_id);
            assert_eq!(e.milestone_id, "m1");
            assert_eq!(e.filed_by, bob());
            assert_eq!(e.reason, "late");
            assert_eq!(e.dispute_id, "dispute_escrow_1_m1");
        },
        other => panic!("unexpected event {:?}", other),
    }
}

#[test]
fn test_notify_counterparty() {
    let (mut contract, escrow_id) = ledger_with(vec![]);

    assert_eq!(
        contract.notify_counterparty(
            env(charlie()),
            escrow_id.clone(),
            "payment_released".to_string(),
            bob(),
            None,
            None
        ),
        Err(EscrowError::Unauthorized)
    );
    let response = contract
        .notify_counterparty(
            env(alice()),
            escrow_id.clone(),
            "payment_released".to_string(),
            bob(),
            Some("msg".to_string()),
            None,
        )
        .unwrap();
    assert_eq!(response.notification_id, "notif_escrow_1_1700000000000");
    assert_eq!(response.status, "sent");
    assert_eq!(response.message, "Notification sent successfully");

    let events = contract.take_events();
    assert_eq!(events.len(), 1);
    match &events[0] {
        Event::CounterpartyNotified(e) => {
            assert_eq!(e.escrow_id, escrow_id);
            assert_eq!(e.notification_type, "payment_released");
            assert_eq!(e.sender_account_id, alice());
            assert_eq!(e.recipient_account_id, bob());
            assert_eq!(e.notification_id, "notif_escrow_1_1700000000000");
        },
        other => panic!("unexpected event {:?}", other),
    }
}

#[test]
fn test_check_transaction_status() {
    let contract = EscrowContract::new(env(alice()), frank(), eve());
    let status = contract.check_transaction_status(env(bob()), "0xabc".to_string()).unwrap();
    assert_eq!(status.transaction_hash, "0xabc");
    assert_eq!(status.status, "confirmed");
    assert_eq!(status.confirmations, 12);
    assert_eq!(status.block_number, 7);
}
