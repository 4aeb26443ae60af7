//! The whole scenario as one step machine: provision the sender wallet,
//! mine until its balance clears the threshold, provision the recipient
//! wallet, send one payment, confirm it, resolve the summary, hand it
//! over for the report.
//!
//! The caller owns the node connection and runs the loop: it asks
//! [`request_of`] for the pending node call, performs it, and hands the
//! answer to [`workflow_step`] as a [`NodeEvent`]. Every decision — which
//! call comes next, how each answer is read, which answers are fatal —
//! is taken here, on plain values. A run is strictly sequential: each
//! state waits on exactly one call, and the payment is submitted from
//! exactly one state, so a run that has passed it never submits again.

use vstd::prelude::*;
use vstd::math::abs;

use crate::amounts::{fee_sats, recipient_output_sats, sender_input_sats, sum_sats};
use crate::errors::{NodeErr, WorkflowError};
use crate::mining::balance_reached;
use crate::provision::{
    pending_call, provision_begin, provision_step, spec_provision_begin, spec_provision_step,
    Provision, ProvisionCall,
};
use crate::resolve::{find_change_output, spec_change_entry, TransactionSummary, TxOutput};
use crate::transfer::{confirmation_hash, mempool_gate};

verus! {

/// The scenario's fixed parameters.
pub struct WorkflowConfig {
    /// The sending wallet's name.
    pub sender_wallet: String,
    /// The receiving wallet's name.
    pub recipient_wallet: String,
    /// The spendable balance the sender must reach before the payment,
    /// in satoshis.
    pub min_balance_sats: u64,
    /// The payment amount, in satoshis.
    pub payment_sats: u64,
    /// Blocks of the maturation batch mined up front.
    pub maturation_blocks: u64,
}

/// Which wallet-scoped connection a call goes through.
#[derive(Clone, Copy, PartialEq, Eq, Structural)]
pub enum Endpoint {
    /// The sending wallet's connection.
    Sender,
    /// The receiving wallet's connection.
    Recipient,
}

/// One node call the workflow asks its caller to perform. Free-form
/// labels and comments some of these calls can carry are metadata the
/// logic ignores; the caller may add them.
pub enum NodeRequest {
    /// List the loaded wallets.
    ListWallets(Endpoint),
    /// Load the named wallet.
    LoadWallet(Endpoint, String),
    /// Unload the named wallet.
    UnloadWallet(Endpoint, String),
    /// Create a wallet of that name.
    CreateWallet(Endpoint, String),
    /// A fresh address of the wallet.
    NewAddress(Endpoint),
    /// Mine this many blocks to the address.
    Generate(u64, String),
    /// The sender wallet's confirmed spendable balance, in satoshis.
    GetBalance(Endpoint),
    /// Send the amount from the sender wallet to the address.
    SendPayment { to: String, amount_sats: u64 },
    /// Is the transaction in the node's mempool?
    MempoolEntry(String),
    /// The wallet's view of the transaction: detail amounts, fee, raw hex.
    GetTransaction(Endpoint, String),
    /// Decode the raw transaction into its ordered output list.
    DecodeRaw(String),
    /// The block's metadata, by hash.
    GetBlockInfo(String),
}

/// A wallet's view of one transaction, as the node reports it.
pub struct WalletTx {
    /// The signed amount of each detail entry, in satoshis; the sender
    /// wallet's contributions are negative.
    pub detail_amounts_sats: Vec<i64>,
    /// The signed fee, when the node reports one.
    pub fee_sats: Option<i64>,
    /// The raw transaction, hex-encoded.
    pub hex: String,
}

/// The node's answer to the pending request.
pub enum NodeEvent {
    /// The loaded wallets.
    Wallets(Vec<String>),
    /// Outcome of a load, unload or create call.
    Op(Result<(), NodeErr>),
    /// The fresh address.
    Address(String),
    /// The hashes of the mined blocks.
    Blocks(Vec<String>),
    /// The balance, in satoshis.
    Balance(u64),
    /// The submitted payment's transaction id.
    SentTxid(String),
    /// Whether the transaction is in the mempool.
    MempoolPresent(bool),
    /// The wallet's view of the transaction.
    Transaction(WalletTx),
    /// The decoded output list.
    Decoded(Vec<TxOutput>),
    /// The block's height.
    Block { height: u64 },
    /// The call itself failed with this node error.
    CallFailed(NodeErr),
}

/// Where a run stands. Each non-terminal state waits on the one node call
/// [`spec_request_of`] names for it; the carried strings are the facts
/// already established.
pub enum WorkflowState {
    /// Waiting on the loaded-wallets list, to provision the sender.
    SenderWallets,
    /// Provisioning the sender wallet.
    ProvisionSender { sub: Provision },
    /// Waiting on a fresh sender address for rewards and change.
    SenderAddress,
    /// Waiting on the maturation batch.
    Maturing { reward_addr: String },
    /// Waiting on the sender's balance.
    CheckingBalance { reward_addr: String },
    /// Balance still short: waiting on one more mined block.
    TopUp { reward_addr: String },
    /// Waiting on the loaded-wallets list, to provision the recipient.
    RecipientWallets { reward_addr: String },
    /// Provisioning the recipient wallet.
    ProvisionRecipient { reward_addr: String, sub: Provision },
    /// Waiting on a fresh recipient address for the payment.
    RecipientAddress { reward_addr: String },
    /// Waiting on the payment submission's transaction id.
    Sending { reward_addr: String, recipient_addr: String },
    /// Waiting on the mempool probe of the submitted payment.
    CheckingMempool { reward_addr: String, recipient_addr: String, txid: String },
    /// Waiting on the one confirming block.
    Confirming { reward_addr: String, recipient_addr: String, txid: String },
    /// Waiting on the sender wallet's view of the payment.
    FetchingSenderTx {
        reward_addr: String,
        recipient_addr: String,
        txid: String,
        block_hash: String,
    },
    /// Waiting on the recipient wallet's view of the payment.
    FetchingRecipientTx {
        reward_addr: String,
        recipient_addr: String,
        txid: String,
        block_hash: String,
        sender_input_sats: u64,
        fee: Option<i64>,
        hex: String,
    },
    /// Waiting on the decoded output list.
    Decoding {
        reward_addr: String,
        recipient_addr: String,
        txid: String,
        block_hash: String,
        sender_input_sats: u64,
        fee: Option<i64>,
        recipient_output_sats: u64,
        hex: String,
    },
    /// Waiting on the confirming block's height.
    FetchingBlock {
        reward_addr: String,
        recipient_addr: String,
        txid: String,
        block_hash: String,
        sender_input_sats: u64,
        fee_sats: u64,
        recipient_output_sats: u64,
        change_address: String,
        change_sats: u64,
    },
    /// The run succeeded; the summary is ready for the report.
    Done { summary: TransactionSummary },
    /// The run failed; nothing further is attempted.
    Failed { error: WorkflowError },
}

/// Every run starts by asking which wallets are loaded.
pub fn workflow_start() -> (s: WorkflowState)
    ensures
        s == WorkflowState::SenderWallets,
{
    WorkflowState::SenderWallets
}

/// The transition table of the whole run. Terminal states absorb every
/// event; a failed node call is fatal everywhere; an answer that does not
/// fit the pending request is a malformed response, fatal as well.
pub open spec fn spec_workflow_step(
    cfg: WorkflowConfig,
    s: WorkflowState,
    e: NodeEvent,
) -> WorkflowState {
    match (s, e) {
        (WorkflowState::Done { summary }, _) => WorkflowState::Done { summary },
        (WorkflowState::Failed { error }, _) => WorkflowState::Failed { error },
        (_, NodeEvent::CallFailed(err)) => WorkflowState::Failed {
            error: WorkflowError::Node(err),
        },
        (WorkflowState::SenderWallets, NodeEvent::Wallets(ws)) => {
            let sub = spec_provision_begin(ws@, cfg.sender_wallet@);
            if sub == Provision::Done {
                WorkflowState::SenderAddress
            } else {
                WorkflowState::ProvisionSender { sub }
            }
        },
        (WorkflowState::ProvisionSender { sub }, NodeEvent::Op(res)) => {
            match spec_provision_step(sub, res) {
                Provision::Done => WorkflowState::SenderAddress,
                Provision::Failed(err) => WorkflowState::Failed { error: err },
                next => WorkflowState::ProvisionSender { sub: next },
            }
        },
        (WorkflowState::SenderAddress, NodeEvent::Address(a)) => WorkflowState::Maturing {
            reward_addr: a,
        },
        (WorkflowState::Maturing { reward_addr }, NodeEvent::Blocks(_)) => {
            WorkflowState::CheckingBalance { reward_addr }
        },
        (WorkflowState::CheckingBalance { reward_addr }, NodeEvent::Balance(b)) => {
            if b >= cfg.min_balance_sats {
                WorkflowState::RecipientWallets { reward_addr }
            } else {
                WorkflowState::TopUp { reward_addr }
            }
        },
        (WorkflowState::TopUp { reward_addr }, NodeEvent::Blocks(_)) => {
            WorkflowState::CheckingBalance { reward_addr }
        },
        (WorkflowState::RecipientWallets { reward_addr }, NodeEvent::Wallets(ws)) => {
            let sub = spec_provision_begin(ws@, cfg.recipient_wallet@);
            if sub == Provision::Done {
                WorkflowState::RecipientAddress { reward_addr }
            } else {
                WorkflowState::ProvisionRecipient { reward_addr, sub }
            }
        },
        (WorkflowState::ProvisionRecipient { reward_addr, sub }, NodeEvent::Op(res)) => {
            match spec_provision_step(sub, res) {
                Provision::Done => WorkflowState::RecipientAddress { reward_addr },
                Provision::Failed(err) => WorkflowState::Failed { error: err },
                next => WorkflowState::ProvisionRecipient { reward_addr, sub: next },
            }
        },
        (WorkflowState::RecipientAddress { reward_addr }, NodeEvent::Address(a)) => {
            WorkflowState::Sending { reward_addr, recipient_addr: a }
        },
        (WorkflowState::Sending { reward_addr, recipient_addr }, NodeEvent::SentTxid(t)) => {
            WorkflowState::CheckingMempool { reward_addr, recipient_addr, txid: t }
        },
        (
            WorkflowState::CheckingMempool { reward_addr, recipient_addr, txid },
            NodeEvent::MempoolPresent(p),
        ) => {
            if p {
                WorkflowState::Confirming { reward_addr, recipient_addr, txid }
            } else {
                WorkflowState::Failed { error: WorkflowError::NotInMempool }
            }
        },
        (
            WorkflowState::Confirming { reward_addr, recipient_addr, txid },
            NodeEvent::Blocks(hs),
        ) => {
            if hs@.len() >= 1 {
                WorkflowState::FetchingSenderTx {
                    reward_addr,
                    recipient_addr,
                    txid,
                    block_hash: hs@[0],
                }
            } else {
                WorkflowState::Failed { error: WorkflowError::NoBlockHash }
            }
        },
        (
            WorkflowState::FetchingSenderTx { reward_addr, recipient_addr, txid, block_hash },
            NodeEvent::Transaction(tx),
        ) => {
            if abs(sum_sats(tx.detail_amounts_sats@)) <= u64::MAX {
                WorkflowState::FetchingRecipientTx {
                    reward_addr,
                    recipient_addr,
                    txid,
                    block_hash,
                    sender_input_sats: abs(sum_sats(tx.detail_amounts_sats@)) as u64,
                    fee: tx.fee_sats,
                    hex: tx.hex,
                }
            } else {
                WorkflowState::Failed { error: WorkflowError::AmountOutOfRange }
            }
        },
        (
            WorkflowState::FetchingRecipientTx {
                reward_addr,
                recipient_addr,
                txid,
                block_hash,
                sender_input_sats,
                fee,
                hex,
            },
            NodeEvent::Transaction(tx),
        ) => {
            if 0 <= sum_sats(tx.detail_amounts_sats@) <= u64::MAX {
                WorkflowState::Decoding {
                    reward_addr,
                    recipient_addr,
                    txid,
                    block_hash,
                    sender_input_sats,
                    fee,
                    recipient_output_sats: sum_sats(tx.detail_amounts_sats@) as u64,
                    hex,
                }
            } else {
                WorkflowState::Failed { error: WorkflowError::AmountOutOfRange }
            }
        },
        (
            WorkflowState::Decoding {
                reward_addr,
                recipient_addr,
                txid,
                block_hash,
                sender_input_sats,
                fee,
                recipient_output_sats,
                hex,
            },
            NodeEvent::Decoded(vout),
        ) => {
            match spec_change_entry(vout@, recipient_addr@) {
                Some(c) => match fee {
                    Some(f) => WorkflowState::FetchingBlock {
                        reward_addr,
                        recipient_addr,
                        txid,
                        block_hash,
                        sender_input_sats,
                        fee_sats: abs(f as int) as u64,
                        recipient_output_sats,
                        change_address: c.0,
                        change_sats: c.1,
                    },
                    None => WorkflowState::Failed { error: WorkflowError::MissingFee },
                },
                None => WorkflowState::Failed { error: WorkflowError::NoChangeOutput },
            }
        },
        (
            WorkflowState::FetchingBlock {
                reward_addr,
                recipient_addr,
                txid,
                block_hash,
                sender_input_sats,
                fee_sats,
                recipient_output_sats,
                change_address,
                change_sats,
            },
            NodeEvent::Block { height },
        ) => WorkflowState::Done {
            summary: TransactionSummary {
                txid,
                sender_address: reward_addr,
                sender_input_sats,
                recipient_address: recipient_addr,
                recipient_output_sats,
                change_address,
                change_sats,
                fee_sats,
                block_height: height,
                block_hash,
            },
        },
        _ => WorkflowState::Failed { error: WorkflowError::MalformedResponse },
    }
}

/// Advance the run by the node's answer to the pending call.
pub fn workflow_step(cfg: &WorkflowConfig, s: WorkflowState, e: NodeEvent) -> (r: WorkflowState)
    ensures
        r == spec_workflow_step(*cfg, s, e),
{
    match (s, e) {
        (WorkflowState::Done { summary }, _) => WorkflowState::Done { summary },
        (WorkflowState::Failed { error }, _) => WorkflowState::Failed { error },
        (_, NodeEvent::CallFailed(err)) => WorkflowState::Failed {
            error: WorkflowError::Node(err),
        },
        (WorkflowState::SenderWallets, NodeEvent::Wallets(ws)) => {
            match provision_begin(&ws, &cfg.sender_wallet) {
                Provision::Done => WorkflowState::SenderAddress,
                sub => WorkflowState::ProvisionSender { sub },
            }
        },
        (WorkflowState::ProvisionSender { sub }, NodeEvent::Op(res)) => {
            match provision_step(sub, res) {
                Provision::Done => WorkflowState::SenderAddress,
                Provision::Failed(err) => WorkflowState::Failed { error: err },
                next => WorkflowState::ProvisionSender { sub: next },
            }
        },
        (WorkflowState::SenderAddress, NodeEvent::Address(a)) => WorkflowState::Maturing {
            reward_addr: a,
        },
        (WorkflowState::Maturing { reward_addr }, NodeEvent::Blocks(_)) => {
            WorkflowState::CheckingBalance { reward_addr }
        },
        (WorkflowState::CheckingBalance { reward_addr }, NodeEvent::Balance(b)) => {
            if balance_reached(b, cfg.min_balance_sats) {
                WorkflowState::RecipientWallets { reward_addr }
            } else {
                WorkflowState::TopUp { reward_addr }
            }
        },
        (WorkflowState::TopUp { reward_addr }, NodeEvent::Blocks(_)) => {
            WorkflowState::CheckingBalance { reward_addr }
        },
        (WorkflowState::RecipientWallets { reward_addr }, NodeEvent::Wallets(ws)) => {
            match provision_begin(&ws, &cfg.recipient_wallet) {
                Provision::Done => WorkflowState::RecipientAddress { reward_addr },
                sub => WorkflowState::ProvisionRecipient { reward_addr, sub },
            }
        },
        (WorkflowState::ProvisionRecipient { reward_addr, sub }, NodeEvent::Op(res)) => {
            match provision_step(sub, res) {
                Provision::Done => WorkflowState::RecipientAddress { reward_addr },
                Provision::Failed(err) => WorkflowState::Failed { error: err },
                next => WorkflowState::ProvisionRecipient { reward_addr, sub: next },
            }
        },
        (WorkflowState::RecipientAddress { reward_addr }, NodeEvent::Address(a)) => {
            WorkflowState::Sending { reward_addr, recipient_addr: a }
        },
        (WorkflowState::Sending { reward_addr, recipient_addr }, NodeEvent::SentTxid(t)) => {
            WorkflowState::CheckingMempool { reward_addr, recipient_addr, txid: t }
        },
        (
            WorkflowState::CheckingMempool { reward_addr, recipient_addr, txid },
            NodeEvent::MempoolPresent(p),
        ) => {
            match mempool_gate(p) {
                Ok(_) => WorkflowState::Confirming { reward_addr, recipient_addr, txid },
                Err(err) => WorkflowState::Failed { error: err },
            }
        },
        (
            WorkflowState::Confirming { reward_addr, recipient_addr, txid },
            NodeEvent::Blocks(hs),
        ) => {
            match confirmation_hash(hs) {
                Ok(h) => WorkflowState::FetchingSenderTx {
                    reward_addr,
                    recipient_addr,
                    txid,
                    block_hash: h,
                },
                Err(err) => WorkflowState::Failed { error: err },
            }
        },
        (
            WorkflowState::FetchingSenderTx { reward_addr, recipient_addr, txid, block_hash },
            NodeEvent::Transaction(tx),
        ) => {
            match sender_input_sats(&tx.detail_amounts_sats) {
                Some(v) => WorkflowState::FetchingRecipientTx {
                    reward_addr,
                    recipient_addr,
                    txid,
                    block_hash,
                    sender_input_sats: v,
                    fee: tx.fee_sats,
                    hex: tx.hex,
                },
                None => WorkflowState::Failed { error: WorkflowError::AmountOutOfRange },
            }
        },
        (
            WorkflowState::FetchingRecipientTx {
                reward_addr,
                recipient_addr,
                txid,
                block_hash,
                sender_input_sats,
                fee,
                hex,
            },
            NodeEvent::Transaction(tx),
        ) => {
            match recipient_output_sats(&tx.detail_amounts_sats) {
                Some(v) => WorkflowState::Decoding {
                    reward_addr,
                    recipient_addr,
                    txid,
                    block_hash,
                    sender_input_sats,
                    fee,
                    recipient_output_sats: v,
                    hex,
                },
                None => WorkflowState::Failed { error: WorkflowError::AmountOutOfRange },
            }
        },
        (
            WorkflowState::Decoding {
                reward_addr,
                recipient_addr,
                txid,
                block_hash,
                sender_input_sats,
                fee,
                recipient_output_sats,
                hex: _,
            },
            NodeEvent::Decoded(vout),
        ) => {
            match find_change_output(&vout, &recipient_addr) {
                Ok(c) => match fee_sats(&fee) {
                    Ok(f) => WorkflowState::FetchingBlock {
                        reward_addr,
                        recipient_addr,
                        txid,
                        block_hash,
                        sender_input_sats,
                        fee_sats: f,
                        recipient_output_sats,
                        change_address: c.address,
                        change_sats: c.value_sats,
                    },
                    Err(err) => WorkflowState::Failed { error: err },
                },
                Err(err) => WorkflowState::Failed { error: err },
            }
        },
        (
            WorkflowState::FetchingBlock {
                reward_addr,
                recipient_addr,
                txid,
                block_hash,
                sender_input_sats,
                fee_sats,
                recipient_output_sats,
                change_address,
                change_sats,
            },
            NodeEvent::Block { height },
        ) => WorkflowState::Done {
            summary: TransactionSummary {
                txid,
                sender_address: reward_addr,
                sender_input_sats,
                recipient_address: recipient_addr,
                recipient_output_sats,
                change_address,
                change_sats,
                fee_sats,
                block_height: height,
                block_hash,
            },
        },
        _ => WorkflowState::Failed { error: WorkflowError::MalformedResponse },
    }
}

/// The node call each state waits on; none once the run is over.
pub open spec fn spec_request_of(cfg: WorkflowConfig, s: WorkflowState) -> Option<NodeRequest> {
    match s {
        WorkflowState::SenderWallets => Some(NodeRequest::ListWallets(Endpoint::Sender)),
        WorkflowState::ProvisionSender { sub } => match pending_call(sub) {
            Some(ProvisionCall::LoadWallet) => Some(
                NodeRequest::LoadWallet(Endpoint::Sender, cfg.sender_wallet),
            ),
            Some(ProvisionCall::UnloadWallet) => Some(
                NodeRequest::UnloadWallet(Endpoint::Sender, cfg.sender_wallet),
            ),
            Some(ProvisionCall::CreateWallet) => Some(
                NodeRequest::CreateWallet(Endpoint::Sender, cfg.sender_wallet),
            ),
            None => None,
        },
        WorkflowState::SenderAddress => Some(NodeRequest::NewAddress(Endpoint::Sender)),
        WorkflowState::Maturing { reward_addr } => Some(
            NodeRequest::Generate(cfg.maturation_blocks, reward_addr),
        ),
        WorkflowState::CheckingBalance { .. } => Some(NodeRequest::GetBalance(Endpoint::Sender)),
        WorkflowState::TopUp { reward_addr } => Some(NodeRequest::Generate(1, reward_addr)),
        WorkflowState::RecipientWallets { .. } => Some(
            NodeRequest::ListWallets(Endpoint::Recipient),
        ),
        WorkflowState::ProvisionRecipient { sub, .. } => match pending_call(sub) {
            Some(ProvisionCall::LoadWallet) => Some(
                NodeRequest::LoadWallet(Endpoint::Recipient, cfg.recipient_wallet),
            ),
            Some(ProvisionCall::UnloadWallet) => Some(
                NodeRequest::UnloadWallet(Endpoint::Recipient, cfg.recipient_wallet),
            ),
            Some(ProvisionCall::CreateWallet) => Some(
                NodeRequest::CreateWallet(Endpoint::Recipient, cfg.recipient_wallet),
            ),
            None => None,
        },
        WorkflowState::RecipientAddress { .. } => Some(
            NodeRequest::NewAddress(Endpoint::Recipient),
        ),
        WorkflowState::Sending { recipient_addr, .. } => Some(
            NodeRequest::SendPayment { to: recipient_addr, amount_sats: cfg.payment_sats },
        ),
        WorkflowState::CheckingMempool { txid, .. } => Some(NodeRequest::MempoolEntry(txid)),
        WorkflowState::Confirming { reward_addr, .. } => Some(
            NodeRequest::Generate(1, reward_addr),
        ),
        WorkflowState::FetchingSenderTx { txid, .. } => Some(
            NodeRequest::GetTransaction(Endpoint::Sender, txid),
        ),
        WorkflowState::FetchingRecipientTx { txid, .. } => Some(
            NodeRequest::GetTransaction(Endpoint::Recipient, txid),
        ),
        WorkflowState::Decoding { hex, .. } => Some(NodeRequest::DecodeRaw(hex)),
        WorkflowState::FetchingBlock { block_hash, .. } => Some(
            NodeRequest::GetBlockInfo(block_hash),
        ),
        WorkflowState::Done { .. } => None,
        WorkflowState::Failed { .. } => None,
    }
}

/// The node call to perform next, or nothing once the run is over.
pub fn request_of(cfg: &WorkflowConfig, s: &WorkflowState) -> (r: Option<NodeRequest>)
    ensures
        r == spec_request_of(*cfg, *s),
{
    match s {
        WorkflowState::SenderWallets => Some(NodeRequest::ListWallets(Endpoint::Sender)),
        WorkflowState::ProvisionSender { sub } => match sub {
            Provision::Load | Provision::Reload => Some(
                NodeRequest::LoadWallet(Endpoint::Sender, cfg.sender_wallet.clone()),
            ),
            Provision::Unload => Some(
                NodeRequest::UnloadWallet(Endpoint::Sender, cfg.sender_wallet.clone()),
            ),
            Provision::Create => Some(
                NodeRequest::CreateWallet(Endpoint::Sender, cfg.sender_wallet.clone()),
            ),
            Provision::Done | Provision::Failed(_) => None,
        },
        WorkflowState::SenderAddress => Some(NodeRequest::NewAddress(Endpoint::Sender)),
        WorkflowState::Maturing { reward_addr } => Some(
            NodeRequest::Generate(cfg.maturation_blocks, reward_addr.clone()),
        ),
        WorkflowState::CheckingBalance { .. } => Some(NodeRequest::GetBalance(Endpoint::Sender)),
        WorkflowState::TopUp { reward_addr } => Some(
            NodeRequest::Generate(1, reward_addr.clone()),
        ),
        WorkflowState::RecipientWallets { .. } => Some(
            NodeRequest::ListWallets(Endpoint::Recipient),
        ),
        WorkflowState::ProvisionRecipient { sub, .. } => match sub {
            Provision::Load | Provision::Reload => Some(
                NodeRequest::LoadWallet(Endpoint::Recipient, cfg.recipient_wallet.clone()),
            ),
            Provision::Unload => Some(
                NodeRequest::UnloadWallet(Endpoint::Recipient, cfg.recipient_wallet.clone()),
            ),
            Provision::Create => Some(
                NodeRequest::CreateWallet(Endpoint::Recipient, cfg.recipient_wallet.clone()),
            ),
            Provision::Done | Provision::Failed(_) => None,
        },
        WorkflowState::RecipientAddress { .. } => Some(
            NodeRequest::NewAddress(Endpoint::Recipient),
        ),
        WorkflowState::Sending { recipient_addr, .. } => Some(
            NodeRequest::SendPayment {
                to: recipient_addr.clone(),
                amount_sats: cfg.payment_sats,
            },
        ),
        WorkflowState::CheckingMempool { txid, .. } => Some(
            NodeRequest::MempoolEntry(txid.clone()),
        ),
        WorkflowState::Confirming { reward_addr, .. } => Some(
            NodeRequest::Generate(1, reward_addr.clone()),
        ),
        WorkflowState::FetchingSenderTx { txid, .. } => Some(
            NodeRequest::GetTransaction(Endpoint::Sender, txid.clone()),
        ),
        WorkflowState::FetchingRecipientTx { txid, .. } => Some(
            NodeRequest::GetTransaction(Endpoint::Recipient, txid.clone()),
        ),
        WorkflowState::Decoding { hex, .. } => Some(NodeRequest::DecodeRaw(hex.clone())),
        WorkflowState::FetchingBlock { block_hash, .. } => Some(
            NodeRequest::GetBlockInfo(block_hash.clone()),
        ),
        WorkflowState::Done { .. } => None,
        WorkflowState::Failed { .. } => None,
    }
}

/// The run never leaves the mining loop while the observed balance is
/// below the threshold, and always leaves it once the balance clears it:
/// a short balance sends the run back to mining one more block, nothing
/// else.
pub proof fn lemma_no_early_mining_exit(cfg: WorkflowConfig, reward_addr: String, b: u64)
    ensures
        b < cfg.min_balance_sats ==> spec_workflow_step(
            cfg,
            WorkflowState::CheckingBalance { reward_addr },
            NodeEvent::Balance(b),
        ) == (WorkflowState::TopUp { reward_addr }),
        b >= cfg.min_balance_sats ==> spec_workflow_step(
            cfg,
            WorkflowState::CheckingBalance { reward_addr },
            NodeEvent::Balance(b),
        ) == (WorkflowState::RecipientWallets { reward_addr }),
{
}

/// The scenario the workflow was written for: wallets Miner and Trader,
/// a twenty-bitcoin threshold, a twenty-bitcoin payment, and the standard
/// maturation batch.
pub fn scenario_config() -> (c: WorkflowConfig)
    ensures
        c.sender_wallet@ == "Miner"@,
        c.recipient_wallet@ == "Trader"@,
        c.min_balance_sats == 2_000_000_000u64,
        c.payment_sats == 2_000_000_000u64,
        c.maturation_blocks == crate::mining::MATURATION_BLOCKS,
{
    WorkflowConfig {
        sender_wallet: "Miner".to_owned(),
        recipient_wallet: "Trader".to_owned(),
        min_balance_sats: 2_000_000_000,
        payment_sats: 2_000_000_000,
        maturation_blocks: crate::mining::MATURATION_BLOCKS,
    }
}

} // verus!
