//! Error taxonomy of the workflow.
//!
//! Node errors are classified into the one conflict code the workflow
//! recovers from and everything else, which always propagates; on top of
//! those sit the named workflow-invariant violations that resolution can
//! detect.

use vstd::prelude::*;

verus! {

/// A node RPC error, as the workflow classifies it: the load/exists
/// conflict (the node's code -4) is the only code ever inspected; every
/// other failure keeps its message and propagates unchanged.
#[derive(Debug)]
pub enum NodeErr {
    /// The node reported the load/exists conflict code.
    Conflict,
    /// Any other node error, carried verbatim.
    Other(String),
}

/// A failure of the workflow as a whole.
#[derive(Debug)]
pub enum WorkflowError {
    /// A node error that the workflow does not recover from, carried
    /// verbatim (connectivity, protocol, or an unclassified node code).
    Node(NodeErr),
    /// Creating a wallet failed with the conflict code although the
    /// wallet was not among the loaded ones: it exists but is not listed.
    ExistsNotListed,
    /// No output of the decoded transaction has a resolvable address that
    /// differs from the recipient's, so no change output can be named.
    NoChangeOutput,
    /// The submitted transaction was not found in the node's mempool.
    NotInMempool,
    /// The confirmed transaction carries no fee field.
    MissingFee,
    /// Mining reported no block hash, so there is no confirming block.
    NoBlockHash,
    /// An amount in a node response does not fit the satoshi range this
    /// workflow can represent: a protocol-class violation.
    AmountOutOfRange,
    /// The node's answer does not fit the request the workflow was
    /// waiting on: a malformed response, fatal like any protocol error.
    MalformedResponse,
}

impl WorkflowError {
    /// A short fixed description of the error, for callers that print it.
    pub fn describe(&self) -> (r: &'static str)
        ensures
            r@ == self.describe_spec(),
    {
        match self {
            WorkflowError::Node(_) => "node error",
            WorkflowError::ExistsNotListed => "wallet already exists but was not listed",
            WorkflowError::NoChangeOutput => "no change output found",
            WorkflowError::NotInMempool => "transaction not found in mempool",
            WorkflowError::MissingFee => "no fee on confirmed transaction",
            WorkflowError::NoBlockHash => "no confirming block hash available",
            WorkflowError::AmountOutOfRange => "amount out of representable range",
            WorkflowError::MalformedResponse => "malformed node response",
        }
    }

    /// What `describe` returns, by variant.
    pub open spec fn describe_spec(&self) -> Seq<char> {
        match self {
            WorkflowError::Node(_) => "node error"@,
            WorkflowError::ExistsNotListed => "wallet already exists but was not listed"@,
            WorkflowError::NoChangeOutput => "no change output found"@,
            WorkflowError::NotInMempool => "transaction not found in mempool"@,
            WorkflowError::MissingFee => "no fee on confirmed transaction"@,
            WorkflowError::NoBlockHash => "no confirming block hash available"@,
            WorkflowError::AmountOutOfRange => "amount out of representable range"@,
            WorkflowError::MalformedResponse => "malformed node response"@,
        }
    }
}

} // verus!
