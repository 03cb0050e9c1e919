//! Lifecycle laws: properties that hold of every dispute and every state,
//! stated over the same spec functions the operations' contracts use.

use vstd::prelude::*;

use crate::proxy::JustlyProxy;
use crate::types::{
    dispute_after_bind, dispute_after_execute, dispute_after_pay, dispute_after_rule,
    dispute_wf, execute_check, pay_check, rule_check, status_rank, DisputeStatus, Identity,
    ProxyDispute,
};

verus! {

/// The status of a dispute never goes backwards: every transition, taken
/// under the check that guards it, keeps the rank along
/// `Created < Funded < Ruled < Executed` or raises it.
pub proof fn lemma_status_monotonic(d: ProxyDispute, payer: Identity, remote_id: u64, ruling: u32)
    requires
        dispute_wf(d),
    ensures
        status_rank(dispute_after_pay(d, payer).status) >= status_rank(d.status),
        status_rank(dispute_after_bind(d, remote_id).status) == status_rank(d.status),
        rule_check(d, ruling) is Ok ==> status_rank(dispute_after_rule(d, ruling).status)
            >= status_rank(d.status),
        execute_check(d) is Ok ==> status_rank(dispute_after_execute(d).status) >= status_rank(
            d.status,
        ),
{
}

/// A dispute is `Funded` exactly when both parties have paid and no ruling
/// has superseded the funding stage.
pub proof fn lemma_funded_iff_both_paid(d: ProxyDispute)
    requires
        dispute_wf(d),
    ensures
        d.status == DisputeStatus::Funded <==> (d.claimer_paid && d.defender_paid && d.ruling
            is None && !d.rule_executed),
{
}

/// Funding takes exactly the two parties' payments: after one party pays,
/// the status is still `Created`; after the other party also pays, in
/// either order, it is `Funded`.
pub proof fn lemma_funding_requires_both_payments(d: ProxyDispute)
    requires
        dispute_wf(d),
        !d.claimer_paid,
        !d.defender_paid,
        d.ruling is None,
    ensures
        d.status == DisputeStatus::Created,
        dispute_after_pay(d, d.claimer).status == DisputeStatus::Created,
        dispute_after_pay(d, d.defender).status == DisputeStatus::Created,
        dispute_after_pay(dispute_after_pay(d, d.claimer), d.defender).status
            == DisputeStatus::Funded,
        dispute_after_pay(dispute_after_pay(d, d.defender), d.claimer).status
            == DisputeStatus::Funded,
{
}

/// A recorded amount is never partial: it is 0 before the party pays and
/// exactly the required stake after.
pub proof fn lemma_amounts_zero_or_exact(d: ProxyDispute)
    requires
        dispute_wf(d),
    ensures
        d.claimer_amount == 0 || d.claimer_amount == d.required_amount,
        d.defender_amount == 0 || d.defender_amount == d.required_amount,
{
}

/// A payment, once made, is final: a party that has paid is refused again
/// whatever amount it offers, and no transition moves a recorded amount.
pub proof fn lemma_paid_amount_never_changes(
    d: ProxyDispute,
    payer: Identity,
    amount: i128,
    remote_id: u64,
    ruling: u32,
)
    requires
        dispute_wf(d),
    ensures
        d.claimer_paid ==> pay_check(d, d.claimer, amount) is Err,
        d.defender_paid ==> pay_check(d, d.defender, amount) is Err,
        d.claimer_paid ==> dispute_after_pay(d, payer).claimer_paid && dispute_after_pay(
            d,
            payer,
        ).claimer_amount == d.claimer_amount,
        d.defender_paid ==> dispute_after_pay(d, payer).defender_paid && dispute_after_pay(
            d,
            payer,
        ).defender_amount == d.defender_amount,
        dispute_after_bind(d, remote_id).claimer_amount == d.claimer_amount,
        dispute_after_bind(d, remote_id).defender_amount == d.defender_amount,
        dispute_after_rule(d, ruling).claimer_amount == d.claimer_amount,
        dispute_after_rule(d, ruling).defender_amount == d.defender_amount,
        dispute_after_execute(d).claimer_amount == d.claimer_amount,
        dispute_after_execute(d).defender_amount == d.defender_amount,
{
}

/// The one-shot fields are set at most once: a bound remote id, a recorded
/// ruling, and the execution marker are refused a second assignment and are
/// carried unchanged through every other transition; execution presupposes
/// a ruling.
pub proof fn lemma_one_shot_fields(d: ProxyDispute, payer: Identity, remote_id: u64, ruling: u32)
    requires
        dispute_wf(d),
    ensures
        dispute_after_pay(d, payer).remote_dispute_id == d.remote_dispute_id,
        dispute_after_rule(d, ruling).remote_dispute_id == d.remote_dispute_id,
        dispute_after_execute(d).remote_dispute_id == d.remote_dispute_id,
        d.ruling is Some ==> rule_check(d, ruling) is Err,
        dispute_after_pay(d, payer).ruling == d.ruling,
        dispute_after_bind(d, remote_id).ruling == d.ruling,
        dispute_after_execute(d).ruling == d.ruling,
        d.rule_executed ==> execute_check(d) is Err,
        d.rule_executed ==> d.ruling is Some,
        dispute_after_pay(d, payer).rule_executed == d.rule_executed,
        dispute_after_bind(d, remote_id).rule_executed == d.rule_executed,
        dispute_after_rule(d, ruling).rule_executed == d.rule_executed,
{
}

/// The remote-to-local binding is one-to-one in both directions: two
/// distinct recorded pairs agree neither on the remote id nor on the local
/// id.
pub proof fn lemma_binding_one_to_one(s: JustlyProxy, i: int, j: int)
    requires
        s.wf(),
        0 <= i < s.remote_bindings@.len(),
        0 <= j < s.remote_bindings@.len(),
        i != j,
    ensures
        s.remote_bindings@[i].0 != s.remote_bindings@[j].0,
        s.remote_bindings@[i].1 != s.remote_bindings@[j].1,
{
    let bs = s.remote_bindings@;
    let ds = s.disputes@;
    if bs[i].1 == bs[j].1 {
        assert(ds[bs[i].1 - 1].remote_dispute_id == Some(bs[i].0));
        assert(ds[bs[j].1 - 1].remote_dispute_id == Some(bs[j].0));
    }
}

/// Dispute ids form the strictly increasing sequence 1, 2, 3, ... in
/// creation order: the first record carries id 1, the record at slot `i`
/// carries id `i + 1`, and later records carry larger ids.
pub proof fn lemma_dispute_ids_sequential(s: JustlyProxy, i: int, j: int)
    requires
        s.wf(),
        0 <= i <= j < s.disputes@.len(),
    ensures
        s.disputes@[0].id == 1,
        s.disputes@[i].id == i + 1,
        i < j ==> s.disputes@[i].id < s.disputes@[j].id,
{
}

} // verus!
