//! Data model of the arbitration proxy: identities, dispute records, the
//! lifecycle status, creation parameters, emitted events, and the spec-level
//! description of every lifecycle transition.

use vstd::prelude::*;

verus! {

/// An actor on the ledger: a party, the admin, the relayer, or a contract.
/// The host environment authenticates identities; this model only compares
/// them for equality, so an identity is an opaque 64-bit value.
#[derive(Clone, Copy, Debug, PartialEq, Eq, Structural)]
pub struct Identity {
    pub id: u64,
}

/// Lifecycle status of a dispute. A dispute starts `Created`, becomes
/// `Funded` once both parties have paid, `Ruled` once the relayer records a
/// ruling, and `Executed` once the ruling has been handed to the arbitrable
/// contract.
#[derive(Clone, Copy, Debug, PartialEq, Eq, Structural)]
pub enum DisputeStatus {
    Created,
    Funded,
    Ruled,
    Executed,
}

/// The two privileged identities: the admin may rotate the relayer, the
/// relayer binds remote dispute ids and records rulings.
#[derive(Clone, Copy, Debug, PartialEq, Eq, Structural)]
pub struct Config {
    pub admin: Identity,
    pub relayer: Identity,
}

/// Parameters supplied by the claimer when opening a dispute.
#[derive(Debug, Clone)]
pub struct CreateDisputeParams {
    pub arbitrable: Identity,
    pub claimer: Identity,
    pub defender: Identity,
    pub category: String,
    pub root_evidence_hash: [u8; 32],
    pub jurors_required: u32,
    pub pay_seconds: u64,
    pub evidence_seconds: u64,
    pub commit_seconds: u64,
    pub reveal_seconds: u64,
    pub required_amount: i128,
}

/// One dispute record, keyed by its local 64-bit id. The fields up to
/// `created_at` are immutable once set at creation; the rest evolve under
/// the lifecycle operations.
#[derive(Debug, Clone)]
pub struct ProxyDispute {
    pub id: u64,
    pub arbitrable: Identity,
    pub claimer: Identity,
    pub defender: Identity,
    pub category: String,
    pub root_evidence_hash: [u8; 32],
    pub jurors_required: u32,
    pub pay_seconds: u64,
    pub evidence_seconds: u64,
    pub commit_seconds: u64,
    pub reveal_seconds: u64,
    pub required_amount: i128,
    pub claimer_paid: bool,
    pub defender_paid: bool,
    pub claimer_amount: i128,
    pub defender_amount: i128,
    pub remote_dispute_id: Option<u64>,
    pub ruling: Option<u32>,
    pub rule_executed: bool,
    pub status: DisputeStatus,
    pub created_at: u64,
}

/// One notification, as the host environment would publish it. Every
/// state-changing operation appends exactly one event; a failed operation
/// appends none. The log is append-only and ordered.
#[derive(Debug, Clone, PartialEq, Eq)]
pub enum Event {
    Created {
        dispute_id: u64,
        arbitrable: Identity,
        claimer: Identity,
        defender: Identity,
        category: String,
        jurors_required: u32,
        required_amount: i128,
    },
    Paid { dispute_id: u64, payer: Identity, amount: i128 },
    Evidence { dispute_id: u64, submitter: Identity, evidence_hash: [u8; 32] },
    Bound { local_dispute_id: u64, remote_dispute_id: u64 },
    Ruling { dispute_id: u64, ruling: u32 },
    Executed { dispute_id: u64, ruling: u32 },
    RelayerChanged { relayer: Identity },
}

/// The settlement invocation that `execute_rule` asks the host to deliver to
/// the arbitrable contract: its entry point receives `(local_dispute_id,
/// ruling)`. The host must deliver it in the same atomic unit as the state
/// change, rolling both back if the invocation fails.
#[derive(Clone, Copy, Debug, PartialEq, Eq, Structural)]
pub struct ArbitrableCall {
    pub arbitrable: Identity,
    pub local_dispute_id: u64,
    pub ruling: u32,
}

/// Position of a status in the lifecycle ordering
/// `Created < Funded < Ruled < Executed`.
pub open spec fn status_rank(s: DisputeStatus) -> int {
    match s {
        DisputeStatus::Created => 0,
        DisputeStatus::Funded => 1,
        DisputeStatus::Ruled => 2,
        DisputeStatus::Executed => 3,
    }
}

/// Creation parameters are acceptable exactly when the parties differ, at
/// least one juror is required, and the stake is positive.
pub open spec fn create_params_ok(p: CreateDisputeParams) -> bool {
    &&& p.claimer != p.defender
    &&& p.jurors_required > 0
    &&& p.required_amount > 0
}

/// Well-formedness of a single dispute record. Established at creation and
/// preserved by every transition:
/// - the parties differ, the juror count and the stake are positive;
/// - a recorded amount is either 0 or exactly `required_amount`, tracking
///   the corresponding paid flag;
/// - a ruling is binary, and presupposes a remote binding;
/// - execution presupposes a ruling;
/// - the status is determined by the mutable fields: `Executed` once
///   executed, else `Ruled` once ruled, else `Funded` once both parties have
///   paid, else `Created`.
pub open spec fn dispute_wf(d: ProxyDispute) -> bool {
    &&& d.claimer != d.defender
    &&& d.jurors_required > 0
    &&& d.required_amount > 0
    &&& d.claimer_amount == if d.claimer_paid { d.required_amount } else { 0 }
    &&& d.defender_amount == if d.defender_paid { d.required_amount } else { 0 }
    &&& (d.ruling is Some ==> d.remote_dispute_id is Some && d.ruling.unwrap() <= 1)
    &&& (d.rule_executed ==> d.ruling is Some)
    &&& d.status == (if d.rule_executed {
        DisputeStatus::Executed
    } else if d.ruling is Some {
        DisputeStatus::Ruled
    } else if d.claimer_paid && d.defender_paid {
        DisputeStatus::Funded
    } else {
        DisputeStatus::Created
    })
}

/// The record that `create_dispute` stores for acceptable parameters: the
/// inputs echoed verbatim, every payment, binding, and ruling field at its
/// zero or absent default, and status `Created`.
pub open spec fn dispute_created(id: u64, p: CreateDisputeParams, created_at: u64) -> ProxyDispute {
    ProxyDispute {
        id,
        arbitrable: p.arbitrable,
        claimer: p.claimer,
        defender: p.defender,
        category: p.category,
        root_evidence_hash: p.root_evidence_hash,
        jurors_required: p.jurors_required,
        pay_seconds: p.pay_seconds,
        evidence_seconds: p.evidence_seconds,
        commit_seconds: p.commit_seconds,
        reveal_seconds: p.reveal_seconds,
        required_amount: p.required_amount,
        claimer_paid: false,
        defender_paid: false,
        claimer_amount: 0,
        defender_amount: 0,
        remote_dispute_id: None,
        ruling: None,
        rule_executed: false,
        status: DisputeStatus::Created,
        created_at,
    }
}

/// Which payments `pay_dispute` refuses, in the order the checks are made:
/// an inexact amount, a repeated payment by the same party, a payer who is
/// neither party. `Ok` exactly when the payer is an unpaid party offering
/// the exact stake.
pub open spec fn pay_check(d: ProxyDispute, payer: Identity, amount: i128) -> Result<
    (),
    crate::error::ContractError,
> {
    if amount != d.required_amount {
        Err(crate::error::ContractError::ErrInvalidAmount)
    } else if payer == d.claimer {
        if d.claimer_paid {
            Err(crate::error::ContractError::ErrAlreadyPaid)
        } else {
            Ok(())
        }
    } else if payer == d.defender {
        if d.defender_paid {
            Err(crate::error::ContractError::ErrAlreadyPaid)
        } else {
            Ok(())
        }
    } else {
        Err(crate::error::ContractError::ErrUnauthorized)
    }
}

/// The record after an accepted payment: the payer's flag set, the exact
/// stake recorded, and the status advanced to `Funded` exactly when this
/// payment completes the funding of a dispute not yet ruled.
pub open spec fn dispute_after_pay(d: ProxyDispute, payer: Identity) -> ProxyDispute {
    let paid = if payer == d.claimer {
        ProxyDispute { claimer_paid: true, claimer_amount: d.required_amount, ..d }
    } else {
        ProxyDispute { defender_paid: true, defender_amount: d.required_amount, ..d }
    };
    if paid.claimer_paid && paid.defender_paid && paid.status == DisputeStatus::Created {
        ProxyDispute { status: DisputeStatus::Funded, ..paid }
    } else {
        paid
    }
}

/// Evidence may be submitted by the claimer, the defender, or the arbitrable
/// contract, and by nobody else.
pub open spec fn evidence_allowed(d: ProxyDispute, submitter: Identity) -> bool {
    submitter == d.claimer || submitter == d.defender || submitter == d.arbitrable
}

/// The record after a remote binding: single assignment of the remote id,
/// nothing else moves.
pub open spec fn dispute_after_bind(d: ProxyDispute, remote_id: u64) -> ProxyDispute {
    ProxyDispute { remote_dispute_id: Some(remote_id), ..d }
}

/// Which rulings `rule` refuses, in the order the checks are made: a value
/// outside the binary domain, a dispute with no remote binding, a ruling
/// already recorded. `Ok` exactly when a binary ruling meets a bound,
/// unruled dispute.
pub open spec fn rule_check(d: ProxyDispute, ruling: u32) -> Result<
    (),
    crate::error::ContractError,
> {
    if ruling > 1 {
        Err(crate::error::ContractError::ErrInvalidInput)
    } else if d.remote_dispute_id is None {
        Err(crate::error::ContractError::ErrRemoteMissing)
    } else if d.ruling is Some {
        Err(crate::error::ContractError::ErrRulingAlreadySet)
    } else {
        Ok(())
    }
}

/// The record after a recorded ruling: the ruling set once, status `Ruled`.
pub open spec fn dispute_after_rule(d: ProxyDispute, ruling: u32) -> ProxyDispute {
    ProxyDispute { ruling: Some(ruling), status: DisputeStatus::Ruled, ..d }
}

/// What `execute_rule` refuses: a second execution, or execution before any
/// ruling exists. `Ok` exactly when a ruling is recorded and not yet
/// executed.
pub open spec fn execute_check(d: ProxyDispute) -> Result<(), crate::error::ContractError> {
    if d.rule_executed {
        Err(crate::error::ContractError::ErrAlreadyExecuted)
    } else if d.ruling is None {
        Err(crate::error::ContractError::ErrRulingMissing)
    } else {
        Ok(())
    }
}

/// The record after a successful execution: the one-shot marker set, status
/// `Executed`.
pub open spec fn dispute_after_execute(d: ProxyDispute) -> ProxyDispute {
    ProxyDispute { rule_executed: true, status: DisputeStatus::Executed, ..d }
}

} // verus!
