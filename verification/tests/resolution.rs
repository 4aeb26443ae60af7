use btc_workflow::amounts::{fee_sats, recipient_output_sats, sender_input_sats, total_sats};
use btc_workflow::errors::WorkflowError;
use btc_workflow::resolve::{find_change_output, resolve_summary, TxOutput};

fn out(value_sats: u64, address: Option<&str>) -> TxOutput {
    TxOutput {
        value_sats,
        address: address.map(|a| a.to_string()),
    }
}

#[test]
fn total_is_the_exact_sum() {
    assert_eq!(total_sats(&vec![]), 0);
    assert_eq!(total_sats(&vec![5, -3, 7]), 9);
    assert_eq!(total_sats(&vec![i64::MAX, i64::MAX]), 2 * (i64::MAX as i128));
}

#[test]
fn sender_input_aggregates_all_entries() {
    // several inputs of the sender wallet, all negative, all summed
    let details = vec![-1_000_000_000i64, -1_320_001_000];
    assert_eq!(sender_input_sats(&details), Some(2_320_001_000));
}

#[test]
fn sender_input_of_no_entries_is_zero() {
    assert_eq!(sender_input_sats(&vec![]), Some(0));
}

#[test]
fn sender_input_magnitude_of_the_minimum_fits() {
    assert_eq!(sender_input_sats(&vec![i64::MIN]), Some(9_223_372_036_854_775_808));
}

#[test]
fn sender_input_overflow_is_detected() {
    // three times i64::MIN is below -u64::MAX
    let details = vec![i64::MIN, i64::MIN, i64::MIN];
    assert_eq!(sender_input_sats(&details), None);
}

#[test]
fn recipient_output_sums_incoming_entries() {
    assert_eq!(recipient_output_sats(&vec![2_000_000_000]), Some(2_000_000_000));
    assert_eq!(recipient_output_sats(&vec![1, 2, 3]), Some(6));
}

#[test]
fn negative_recipient_output_is_rejected() {
    assert_eq!(recipient_output_sats(&vec![-1]), None);
}

#[test]
fn fee_is_reported_as_a_magnitude() {
    match fee_sats(&Some(-1_000)) {
        Ok(f) => assert_eq!(f, 1_000),
        Err(_) => panic!("fee present"),
    }
    match fee_sats(&Some(250)) {
        Ok(f) => assert_eq!(f, 250),
        Err(_) => panic!("fee present"),
    }
}

#[test]
fn missing_fee_is_a_named_condition() {
    assert!(matches!(fee_sats(&None), Err(WorkflowError::MissingFee)));
}

#[test]
fn change_is_the_last_non_recipient_output() {
    // outputs: payment of 5 btc to the recipient, then 3.2 btc back to the sender
    let vout = vec![
        out(500_000_000, Some("recipient")),
        out(320_000_000, Some("sender_change")),
    ];
    let change = find_change_output(&vout, &"recipient".to_string()).unwrap();
    assert_eq!(change.address, "sender_change");
    assert_eq!(change.value_sats, 320_000_000);
}

#[test]
fn change_skips_later_recipient_and_unresolved_outputs() {
    let vout = vec![
        out(10, Some("change_addr")),
        out(20, Some("recipient")),
        out(30, None),
    ];
    let change = find_change_output(&vout, &"recipient".to_string()).unwrap();
    assert_eq!(change.address, "change_addr");
    assert_eq!(change.value_sats, 10);
}

#[test]
fn all_outputs_to_recipient_means_no_change_output() {
    let vout = vec![
        out(500_000_000, Some("recipient")),
        out(320_000_000, Some("recipient")),
    ];
    let r = find_change_output(&vout, &"recipient".to_string());
    assert!(matches!(r, Err(WorkflowError::NoChangeOutput)));
}

#[test]
fn unresolved_outputs_alone_mean_no_change_output() {
    let vout = vec![out(5, None), out(7, None)];
    let r = find_change_output(&vout, &"recipient".to_string());
    assert!(matches!(r, Err(WorkflowError::NoChangeOutput)));
}

#[test]
fn resolved_summary_balances_exactly() {
    // input 23.20001, payment 20, change 3.2, fee 0.00001: balances exactly
    let sender_details = vec![-1_000_000_000i64, -1_320_001_000];
    let recipient_details = vec![2_000_000_000i64];
    let vout = vec![
        out(2_000_000_000, Some("trader_addr")),
        out(320_000_000, Some("miner_change")),
    ];
    let summary = resolve_summary(
        "txid123".to_string(),
        "miner_addr".to_string(),
        &sender_details,
        "trader_addr".to_string(),
        &recipient_details,
        &vout,
        &Some(-1_000),
        103,
        "blockhash9".to_string(),
    )
    .unwrap();
    assert_eq!(summary.sender_input_sats, 2_320_001_000);
    assert_eq!(summary.recipient_output_sats, 2_000_000_000);
    assert_eq!(summary.change_address, "miner_change");
    assert_eq!(summary.change_sats, 320_000_000);
    assert_eq!(summary.fee_sats, 1_000);
    assert_eq!(summary.block_height, 103);
    // the round trip: input - payment - change == fee, difference exactly zero
    let diff = summary.sender_input_sats
        - summary.recipient_output_sats
        - summary.change_sats
        - summary.fee_sats;
    assert_eq!(diff, 0);
}

#[test]
fn resolution_fails_without_change_output() {
    let sender_details = vec![-2_000_001_000i64];
    let recipient_details = vec![2_000_000_000i64];
    let vout = vec![out(2_000_000_000, Some("trader_addr"))];
    let r = resolve_summary(
        "txid123".to_string(),
        "miner_addr".to_string(),
        &sender_details,
        "trader_addr".to_string(),
        &recipient_details,
        &vout,
        &Some(-1_000),
        103,
        "blockhash9".to_string(),
    );
    assert!(matches!(r, Err(WorkflowError::NoChangeOutput)));
}

#[test]
fn resolution_fails_on_missing_fee() {
    let sender_details = vec![-2_320_001_000i64];
    let recipient_details = vec![2_000_000_000i64];
    let vout = vec![
        out(2_000_000_000, Some("trader_addr")),
        out(320_000_000, Some("miner_change")),
    ];
    let r = resolve_summary(
        "txid123".to_string(),
        "miner_addr".to_string(),
        &sender_details,
        "trader_addr".to_string(),
        &recipient_details,
        &vout,
        &None,
        103,
        "blockhash9".to_string(),
    );
    assert!(matches!(r, Err(WorkflowError::MissingFee)));
}

#[test]
fn resolution_fails_on_unrepresentable_amounts() {
    let sender_details = vec![i64::MIN, i64::MIN, i64::MIN];
    let recipient_details = vec![2_000_000_000i64];
    let vout = vec![out(1, Some("miner_change"))];
    let r = resolve_summary(
        "txid123".to_string(),
        "miner_addr".to_string(),
        &sender_details,
        "trader_addr".to_string(),
        &recipient_details,
        &vout,
        &Some(-1_000),
        103,
        "blockhash9".to_string(),
    );
    assert!(matches!(r, Err(WorkflowError::AmountOutOfRange)));
}
