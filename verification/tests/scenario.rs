use btc_workflow::errors::{NodeErr, WorkflowError};
use btc_workflow::mining::{balance_reached, blocks_until_funded, MATURATION_BLOCKS};
use btc_workflow::resolve::TxOutput;
use btc_workflow::transfer::{accept_send, confirmation_hash, mempool_gate};
use btc_workflow::workflow::{
    request_of, scenario_config, workflow_start, workflow_step, Endpoint, NodeEvent, NodeRequest,
    WorkflowState,
};

fn wallets(names: &[&str]) -> Vec<String> {
    names.iter().map(|n| n.to_string()).collect()
}

#[test]
fn mining_loop_guard_is_the_threshold() {
    assert!(!balance_reached(1_999_999_999, 2_000_000_000));
    assert!(balance_reached(2_000_000_000, 2_000_000_000));
    assert!(balance_reached(2_000_000_001, 2_000_000_000));
}

#[test]
fn mining_rounds_are_bounded_and_minimal() {
    // a single 50-btc block reward clears a 20-btc threshold at once
    assert_eq!(blocks_until_funded(0, 2_000_000_000, 5_000_000_000), 1);
    // already funded: no rounds at all
    assert_eq!(blocks_until_funded(2_000_000_000, 2_000_000_000, 1), 0);
    // 30 per round towards 100: three rounds reach 90, the fourth 120
    assert_eq!(blocks_until_funded(0, 100, 30), 4);
    // one satoshi per round
    assert_eq!(blocks_until_funded(5, 12, 1), 7);
}

#[test]
fn maturation_batch_covers_coinbase_maturity() {
    assert_eq!(MATURATION_BLOCKS, 101);
}

#[test]
fn transfer_decisions() {
    assert!(mempool_gate(true).is_ok());
    assert!(matches!(
        mempool_gate(false),
        Err(WorkflowError::NotInMempool)
    ));
    assert_eq!(
        confirmation_hash(wallets(&["h1", "h2"])).unwrap(),
        "h1".to_string()
    );
    assert!(matches!(
        confirmation_hash(Vec::new()),
        Err(WorkflowError::NoBlockHash)
    ));
    assert_eq!(
        accept_send(true, "txid".to_string()),
        Some("txid".to_string())
    );
    assert_eq!(accept_send(false, "txid".to_string()), None);
}

fn tx(details: &[i64], fee: Option<i64>, hex: &str) -> NodeEvent {
    NodeEvent::Transaction(btc_workflow::workflow::WalletTx {
        detail_amounts_sats: details.to_vec(),
        fee_sats: fee,
        hex: hex.to_string(),
    })
}

fn out(value_sats: u64, address: Option<&str>) -> TxOutput {
    TxOutput {
        value_sats,
        address: address.map(|a| a.to_string()),
    }
}

#[test]
fn full_scenario_reaches_the_expected_report() {
    let cfg = scenario_config();
    let mut s = workflow_start();

    // provision the sender: both wallets already loaded, no calls needed
    assert!(matches!(
        request_of(&cfg, &s),
        Some(NodeRequest::ListWallets(Endpoint::Sender))
    ));
    s = workflow_step(&cfg, s, NodeEvent::Wallets(wallets(&["Miner", "Trader"])));
    assert!(matches!(s, WorkflowState::SenderAddress));

    // reward address, maturation batch
    s = workflow_step(&cfg, s, NodeEvent::Address("miner_addr".to_string()));
    match request_of(&cfg, &s) {
        Some(NodeRequest::Generate(count, addr)) => {
            assert_eq!(count, 101);
            assert_eq!(addr, "miner_addr");
        }
        _ => panic!("expected the maturation batch"),
    }
    s = workflow_step(&cfg, s, NodeEvent::Blocks(Vec::new()));

    // balance below the threshold: one more block, then funded
    s = workflow_step(&cfg, s, NodeEvent::Balance(1_000_000_000));
    match request_of(&cfg, &s) {
        Some(NodeRequest::Generate(count, addr)) => {
            assert_eq!(count, 1);
            assert_eq!(addr, "miner_addr");
        }
        _ => panic!("expected one more mined block"),
    }
    s = workflow_step(&cfg, s, NodeEvent::Blocks(wallets(&["h1"])));
    s = workflow_step(&cfg, s, NodeEvent::Balance(2_500_000_000));

    // provision the recipient, fresh payment address
    assert!(matches!(
        request_of(&cfg, &s),
        Some(NodeRequest::ListWallets(Endpoint::Recipient))
    ));
    s = workflow_step(&cfg, s, NodeEvent::Wallets(wallets(&["Miner", "Trader"])));
    s = workflow_step(&cfg, s, NodeEvent::Address("trader_addr".to_string()));

    // the payment: exactly 20 btc
    match request_of(&cfg, &s) {
        Some(NodeRequest::SendPayment { to, amount_sats }) => {
            assert_eq!(to, "trader_addr");
            assert_eq!(amount_sats, 2_000_000_000);
        }
        _ => panic!("expected the payment submission"),
    }
    s = workflow_step(&cfg, s, NodeEvent::SentTxid("txid123".to_string()));
    s = workflow_step(&cfg, s, NodeEvent::MempoolPresent(true));

    // one confirming block
    s = workflow_step(&cfg, s, NodeEvent::Blocks(wallets(&["blockhash9"])));

    // both wallets' views, the decoded outputs, the block height
    s = workflow_step(
        &cfg,
        s,
        tx(&[-1_000_000_000, -1_320_001_000], Some(-1_000), "rawhex"),
    );
    match request_of(&cfg, &s) {
        Some(NodeRequest::GetTransaction(Endpoint::Recipient, txid)) => {
            assert_eq!(txid, "txid123");
        }
        _ => panic!("expected the recipient wallet's view"),
    }
    s = workflow_step(&cfg, s, tx(&[2_000_000_000], None, ""));
    match request_of(&cfg, &s) {
        Some(NodeRequest::DecodeRaw(hex)) => assert_eq!(hex, "rawhex"),
        _ => panic!("expected the decode request"),
    }
    s = workflow_step(
        &cfg,
        s,
        NodeEvent::Decoded(vec![
            out(2_000_000_000, Some("trader_addr")),
            out(320_000_000, Some("miner_change")),
        ]),
    );
    match request_of(&cfg, &s) {
        Some(NodeRequest::GetBlockInfo(hash)) => assert_eq!(hash, "blockhash9"),
        _ => panic!("expected the block lookup"),
    }
    s = workflow_step(&cfg, s, NodeEvent::Block { height: 103 });

    let summary = match s {
        WorkflowState::Done { summary } => summary,
        _ => panic!("expected the run to finish"),
    };
    // the recipient received exactly 20, the sender put in at least 20 plus the fee
    assert_eq!(summary.recipient_output_sats, 2_000_000_000);
    assert!(summary.sender_input_sats >= 2_000_000_000 + summary.fee_sats);
    assert_eq!(summary.txid, "txid123");
    assert_eq!(summary.sender_address, "miner_addr");
    assert_eq!(summary.sender_input_sats, 2_320_001_000);
    assert_eq!(summary.recipient_address, "trader_addr");
    assert_eq!(summary.change_address, "miner_change");
    assert_eq!(summary.change_sats, 320_000_000);
    assert_eq!(summary.fee_sats, 1_000);
    assert_eq!(summary.block_height, 103);
    assert_eq!(summary.block_hash, "blockhash9");

    let lines = summary.to_lines();
    assert_eq!(lines[4], "20");
    assert_eq!(lines[2], "23.20001");
}

#[test]
fn provisioning_conflict_inside_the_run() {
    let cfg = scenario_config();
    let mut s = workflow_start();
    // sender wallet not listed: a load is attempted
    s = workflow_step(&cfg, s, NodeEvent::Wallets(wallets(&[])));
    match request_of(&cfg, &s) {
        Some(NodeRequest::LoadWallet(Endpoint::Sender, name)) => assert_eq!(name, "Miner"),
        _ => panic!("expected a load of the sender wallet"),
    }
    // the load hits the conflict: one unload, one reload, then done
    s = workflow_step(&cfg, s, NodeEvent::Op(Err(NodeErr::Conflict)));
    match request_of(&cfg, &s) {
        Some(NodeRequest::UnloadWallet(Endpoint::Sender, name)) => assert_eq!(name, "Miner"),
        _ => panic!("expected the unload"),
    }
    s = workflow_step(&cfg, s, NodeEvent::Op(Ok(())));
    match request_of(&cfg, &s) {
        Some(NodeRequest::LoadWallet(Endpoint::Sender, name)) => assert_eq!(name, "Miner"),
        _ => panic!("expected the reload"),
    }
    s = workflow_step(&cfg, s, NodeEvent::Op(Ok(())));
    assert!(matches!(s, WorkflowState::SenderAddress));
}

#[test]
fn missing_mempool_entry_is_fatal() {
    let cfg = scenario_config();
    let s = WorkflowState::CheckingMempool {
        reward_addr: "miner_addr".to_string(),
        recipient_addr: "trader_addr".to_string(),
        txid: "txid123".to_string(),
    };
    let s = workflow_step(&cfg, s, NodeEvent::MempoolPresent(false));
    assert!(matches!(
        s,
        WorkflowState::Failed {
            error: WorkflowError::NotInMempool
        }
    ));
}

#[test]
fn empty_mining_result_means_no_confirming_block() {
    let cfg = scenario_config();
    let s = WorkflowState::Confirming {
        reward_addr: "miner_addr".to_string(),
        recipient_addr: "trader_addr".to_string(),
        txid: "txid123".to_string(),
    };
    let s = workflow_step(&cfg, s, NodeEvent::Blocks(Vec::new()));
    assert!(matches!(
        s,
        WorkflowState::Failed {
            error: WorkflowError::NoBlockHash
        }
    ));
}

#[test]
fn failed_node_call_is_fatal_anywhere() {
    let cfg = scenario_config();
    let s = workflow_step(
        &cfg,
        workflow_start(),
        NodeEvent::CallFailed(NodeErr::Other("connection refused".to_string())),
    );
    match s {
        WorkflowState::Failed {
            error: WorkflowError::Node(NodeErr::Other(m)),
        } => assert_eq!(m, "connection refused"),
        _ => panic!("expected the call failure to propagate"),
    }
}

#[test]
fn mismatched_answer_is_a_malformed_response() {
    let cfg = scenario_config();
    let s = workflow_step(&cfg, workflow_start(), NodeEvent::Balance(5));
    assert!(matches!(
        s,
        WorkflowState::Failed {
            error: WorkflowError::MalformedResponse
        }
    ));
}

#[test]
fn errors_describe_themselves() {
    assert_eq!(
        WorkflowError::NoChangeOutput.describe(),
        "no change output found"
    );
    assert_eq!(
        WorkflowError::ExistsNotListed.describe(),
        "wallet already exists but was not listed"
    );
    assert_eq!(
        WorkflowError::MissingFee.describe(),
        "no fee on confirmed transaction"
    );
}

#[test]
fn terminal_states_absorb_further_events() {
    let cfg = scenario_config();
    let failed = WorkflowState::Failed {
        error: WorkflowError::NotInMempool,
    };
    let s = workflow_step(&cfg, failed, NodeEvent::Balance(5));
    assert!(matches!(
        s,
        WorkflowState::Failed {
            error: WorkflowError::NotInMempool
        }
    ));
    assert!(request_of(&cfg, &s).is_none());
}
