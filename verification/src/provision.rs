//! The wallet provisioner: a step machine that makes a named wallet loaded
//! and usable, whatever the node's starting state.
//!
//! The caller runs the machine: each waiting state names exactly one node
//! call to perform; the caller performs it and hands the outcome to
//! [`provision_step`]. The policy: a wallet already among the loaded ones
//! needs no call at all; a load that hits the node's load/exists conflict
//! is recovered by one unload and one reload, never more; a load that
//! fails otherwise means the wallet does not exist yet and is answered by
//! creating it; a creation that hits the same conflict is surfaced as the
//! distinct "exists but not listed" condition. Every other node error
//! propagates unchanged.

use vstd::prelude::*;

use crate::errors::{NodeErr, WorkflowError};

verus! {

/// State of one wallet's provisioning. Each non-terminal state is waiting
/// on the outcome of exactly one node call, named by [`pending_call`].
pub enum Provision {
    /// Waiting on the first attempt to load the wallet.
    Load,
    /// The first load reported the conflict; waiting on the unload.
    Unload,
    /// Waiting on the single reload after the unload.
    Reload,
    /// The wallet was not loadable, so it does not exist yet; waiting on
    /// its creation.
    Create,
    /// The wallet is loaded and usable.
    Done,
    /// Provisioning failed; the workflow aborts.
    Failed(WorkflowError),
}

/// The node calls a provisioning run can issue.
pub enum ProvisionCall {
    /// Load the wallet by name.
    LoadWallet,
    /// Unload the wallet by name.
    UnloadWallet,
    /// Create a wallet of that name.
    CreateWallet,
}

/// The node call a state is waiting on: exactly one per waiting state,
/// none once the run is over.
pub open spec fn pending_call(s: Provision) -> Option<ProvisionCall> {
    match s {
        Provision::Load => Some(ProvisionCall::LoadWallet),
        Provision::Unload => Some(ProvisionCall::UnloadWallet),
        Provision::Reload => Some(ProvisionCall::LoadWallet),
        Provision::Create => Some(ProvisionCall::CreateWallet),
        Provision::Done => None,
        Provision::Failed(_) => None,
    }
}

/// Where a run starts, given the node's list of loaded wallets: a wallet
/// already loaded is done on the spot, any other goes through a first
/// load attempt.
pub open spec fn spec_provision_begin(loaded: Seq<String>, name: Seq<char>) -> Provision {
    if exists|i: int| 0 <= i < loaded.len() && loaded[i]@ == name {
        Provision::Done
    } else {
        Provision::Load
    }
}

/// Queries nothing itself: takes the node's answer to "list the loaded
/// wallets" and decides whether any call is needed for `name`.
pub fn provision_begin(loaded: &Vec<String>, name: &String) -> (r: Provision)
    ensures
        r == spec_provision_begin(loaded@, name@),
{
    let mut i: usize = 0;
    while i < loaded.len()
        invariant
            0 <= i <= loaded@.len(),
            forall|j: int| 0 <= j < i ==> loaded@[j]@ != name@,
        decreases loaded@.len() - i,
    {
        if loaded[i].eq(name) {
            return Provision::Done;
        }
        i = i + 1;
    }
    Provision::Load
}

/// The transition table: what each waiting state becomes on each outcome
/// of its pending call.
pub open spec fn spec_provision_step(s: Provision, outcome: Result<(), NodeErr>) -> Provision {
    match s {
        Provision::Load => match outcome {
            Ok(()) => Provision::Done,
            Err(NodeErr::Conflict) => Provision::Unload,
            Err(NodeErr::Other(_)) => Provision::Create,
        },
        Provision::Unload => match outcome {
            Ok(()) => Provision::Reload,
            Err(e) => Provision::Failed(WorkflowError::Node(e)),
        },
        Provision::Reload => match outcome {
            Ok(()) => Provision::Done,
            Err(e) => Provision::Failed(WorkflowError::Node(e)),
        },
        Provision::Create => match outcome {
            Ok(()) => Provision::Done,
            Err(NodeErr::Conflict) => Provision::Failed(WorkflowError::ExistsNotListed),
            Err(NodeErr::Other(m)) => Provision::Failed(
                WorkflowError::Node(NodeErr::Other(m)),
            ),
        },
        Provision::Done => Provision::Done,
        Provision::Failed(e) => Provision::Failed(e),
    }
}

/// Advance the run by the outcome of the pending call. Terminal states
/// stay where they are.
pub fn provision_step(s: Provision, outcome: Result<(), NodeErr>) -> (r: Provision)
    ensures
        r == spec_provision_step(s, outcome),
{
    match s {
        Provision::Load => match outcome {
            Ok(()) => Provision::Done,
            Err(NodeErr::Conflict) => Provision::Unload,
            Err(NodeErr::Other(_)) => Provision::Create,
        },
        Provision::Unload => match outcome {
            Ok(()) => Provision::Reload,
            Err(e) => Provision::Failed(WorkflowError::Node(e)),
        },
        Provision::Reload => match outcome {
            Ok(()) => Provision::Done,
            Err(e) => Provision::Failed(WorkflowError::Node(e)),
        },
        Provision::Create => match outcome {
            Ok(()) => Provision::Done,
            Err(NodeErr::Conflict) => Provision::Failed(WorkflowError::ExistsNotListed),
            Err(NodeErr::Other(m)) => Provision::Failed(
                WorkflowError::Node(NodeErr::Other(m)),
            ),
        },
        Provision::Done => Provision::Done,
        Provision::Failed(e) => Provision::Failed(e),
    }
}

/// The states a run visits from `s` under the node outcomes `outs`: `s`
/// first, then each successor in turn.
pub open spec fn provision_trace(s: Provision, outs: Seq<Result<(), NodeErr>>) -> Seq<Provision>
    decreases outs.len(),
{
    if outs.len() == 0 {
        seq![s]
    } else {
        seq![s] + provision_trace(spec_provision_step(s, outs[0]), outs.drop_first())
    }
}

/// How many states of `tr` wait on the call `c`. Each waiting state in a
/// trace stands for exactly one issued node call.
pub open spec fn calls_in(tr: Seq<Provision>, c: ProvisionCall) -> nat
    decreases tr.len(),
{
    if tr.len() == 0 {
        0
    } else {
        (if pending_call(tr[0]) == Some(c) {
            1nat
        } else {
            0nat
        }) + calls_in(tr.drop_first(), c)
    }
}

proof fn lemma_calls_in_three(a: Provision, b: Provision, d: Provision, c: ProvisionCall)
    ensures
        calls_in(seq![a, b, d], c) == (if pending_call(a) == Some(c) {
            1nat
        } else {
            0nat
        }) + (if pending_call(b) == Some(c) {
            1nat
        } else {
            0nat
        }) + (if pending_call(d) == Some(c) {
            1nat
        } else {
            0nat
        }),
{
    let tr = seq![a, b, d];
    assert(tr.drop_first() =~= seq![b, d]);
    assert(seq![b, d].drop_first() =~= seq![d]);
    assert(seq![d].drop_first() =~= Seq::<Provision>::empty());
    assert(calls_in(Seq::<Provision>::empty(), c) == 0);
    assert(calls_in(seq![d], c) == (if pending_call(d) == Some(c) {
        1nat
    } else {
        0nat
    }));
    assert(calls_in(seq![b, d], c) == (if pending_call(b) == Some(c) {
        1nat
    } else {
        0nat
    }) + calls_in(seq![d], c));
}

proof fn lemma_trace_from_done(outs: Seq<Result<(), NodeErr>>, c: ProvisionCall)
    ensures
        calls_in(provision_trace(Provision::Done, outs), c) == 0,
    decreases outs.len(),
{
    let tr = provision_trace(Provision::Done, outs);
    if outs.len() == 0 {
        assert(tr =~= seq![Provision::Done]);
        assert(tr.drop_first() =~= Seq::<Provision>::empty());
        assert(calls_in(tr.drop_first(), c) == 0);
        assert(calls_in(tr, c) == 0);
    } else {
        lemma_trace_from_done(outs.drop_first(), c);
        assert(tr == seq![Provision::Done] + provision_trace(
            Provision::Done,
            outs.drop_first(),
        ));
        assert(tr[0] == Provision::Done);
        assert(tr.drop_first() =~= provision_trace(Provision::Done, outs.drop_first()));
        assert(calls_in(tr, c) == calls_in(tr.drop_first(), c));
    }
}

/// Provisioning is idempotent: a wallet already among the loaded ones is
/// provisioned with zero node calls of any kind — the run begins in its
/// terminal state and never issues a load, create or unload, whatever the
/// node would have answered.
pub proof fn lemma_provision_idempotent(
    loaded: Seq<String>,
    name: Seq<char>,
    outs: Seq<Result<(), NodeErr>>,
    c: ProvisionCall,
)
    requires
        exists|i: int| 0 <= i < loaded.len() && loaded[i]@ == name,
    ensures
        spec_provision_begin(loaded, name) == Provision::Done,
        calls_in(provision_trace(spec_provision_begin(loaded, name), outs), c) == 0,
{
    lemma_trace_from_done(outs, c);
}

/// Conflict recovery is exactly one unload and one reload: after the first
/// load attempt reports the conflict, the run issues one unload and one
/// further load, succeeds, and creates nothing.
pub proof fn lemma_provision_conflict_recovery()
    ensures
        spec_provision_step(Provision::Load, Err(NodeErr::Conflict)) == Provision::Unload,
        ({
            let tr = provision_trace(Provision::Unload, seq![Ok(()), Ok(())]);
            &&& tr.last() == Provision::Done
            &&& calls_in(tr, ProvisionCall::UnloadWallet) == 1
            &&& calls_in(tr, ProvisionCall::LoadWallet) == 1
            &&& calls_in(tr, ProvisionCall::CreateWallet) == 0
        }),
{
    let outs: Seq<Result<(), NodeErr>> = seq![Ok(()), Ok(())];
    let tr = provision_trace(Provision::Unload, outs);
    assert(outs.drop_first() =~= seq![Ok::<(), NodeErr>(())]);
    assert(outs.drop_first().drop_first() =~= Seq::<Result<(), NodeErr>>::empty());
    assert(provision_trace(Provision::Done, Seq::<Result<(), NodeErr>>::empty()) =~= seq![
        Provision::Done,
    ]);
    assert(provision_trace(Provision::Reload, outs.drop_first()) =~= seq![
        Provision::Reload,
        Provision::Done,
    ]);
    assert(tr =~= seq![Provision::Unload, Provision::Reload, Provision::Done]);
    lemma_calls_in_three(
        Provision::Unload,
        Provision::Reload,
        Provision::Done,
        ProvisionCall::UnloadWallet,
    );
    lemma_calls_in_three(
        Provision::Unload,
        Provision::Reload,
        Provision::Done,
        ProvisionCall::LoadWallet,
    );
    lemma_calls_in_three(
        Provision::Unload,
        Provision::Reload,
        Provision::Done,
        ProvisionCall::CreateWallet,
    );
}

/// The conflict is recovered only once: a second conflict on the reload is
/// not retried but propagated unchanged.
pub proof fn lemma_provision_no_second_retry()
    ensures
        spec_provision_step(Provision::Reload, Err(NodeErr::Conflict)) == Provision::Failed(
            WorkflowError::Node(NodeErr::Conflict),
        ),
{
}

} // verus!
