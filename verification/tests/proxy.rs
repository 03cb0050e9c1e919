use justly_proxy::error::ContractError;
use justly_proxy::proxy::JustlyProxy;
use justly_proxy::types::{CreateDisputeParams, DisputeStatus, Identity};

const ADMIN: Identity = Identity { id: 1 };
const RELAYER: Identity = Identity { id: 2 };
const ARBITRABLE: Identity = Identity { id: 3 };

fn setup() -> JustlyProxy {
    let mut proxy = JustlyProxy::new();
    proxy.initialize(ADMIN, RELAYER);
    proxy
}

fn create_params(
    arbitrable: Identity,
    claimer: Identity,
    defender: Identity,
    amount: i128,
) -> CreateDisputeParams {
    CreateDisputeParams {
        arbitrable,
        claimer,
        defender,
        category: String::from("General"),
        root_evidence_hash: [1u8; 32],
        jurors_required: 5,
        pay_seconds: 3600,
        evidence_seconds: 3600,
        commit_seconds: 3600,
        reveal_seconds: 3600,
        required_amount: amount,
    }
}

#[test]
fn test_create_dispute_and_read_state() {
    let mut proxy = setup();
    let claimer = Identity { id: 10 };
    let defender = Identity { id: 11 };

    let params = create_params(ARBITRABLE, claimer, defender, 1_000_000);
    let dispute_id = proxy.create_dispute(params, 0).unwrap();

    let dispute = proxy.get_dispute(dispute_id).unwrap();
    assert_eq!(dispute.id, dispute_id);
    assert_eq!(dispute.claimer, claimer);
    assert_eq!(dispute.defender, defender);
    assert_eq!(dispute.required_amount, 1_000_000);
    assert!(dispute.status == DisputeStatus::Created);
    assert!(!dispute.claimer_paid);
    assert!(!dispute.defender_paid);
    assert!(dispute.remote_dispute_id.is_none());
    assert!(dispute.ruling.is_none());
}

#[test]
fn test_create_dispute_validation() {
    let mut proxy = setup();
    let user = Identity { id: 10 };

    let same_party = create_params(ARBITRABLE, user, user, 1_000_000);
    let res = proxy.create_dispute(same_party, 0);
    assert!(res.is_err());

    let zero_amount = create_params(ARBITRABLE, user, Identity { id: 11 }, 0);
    let res = proxy.create_dispute(zero_amount, 0);
    assert!(res.is_err());

    let mut zero_jurors = create_params(ARBITRABLE, user, Identity { id: 12 }, 1_000_000);
    zero_jurors.jurors_required = 0;
    let res = proxy.create_dispute(zero_jurors, 0);
    assert!(res.is_err());
}

#[test]
fn test_pay_dispute_requires_exact_amount_and_full_funding() {
    let mut proxy = setup();
    let claimer = Identity { id: 10 };
    let defender = Identity { id: 11 };
    let third_party = Identity { id: 12 };

    let amount = 5_000_000;
    let params = create_params(ARBITRABLE, claimer, defender, amount);
    let dispute_id = proxy.create_dispute(params, 0).unwrap();

    let wrong_amount = amount - 1;
    let res = proxy.pay_dispute(claimer, dispute_id, wrong_amount);
    assert!(res.is_err());

    let res = proxy.pay_dispute(third_party, dispute_id, amount);
    assert!(res.is_err());

    proxy.pay_dispute(claimer, dispute_id, amount).unwrap();
    let dispute = proxy.get_dispute(dispute_id).unwrap();
    assert!(dispute.claimer_paid);
    assert!(!dispute.defender_paid);
    assert!(dispute.status == DisputeStatus::Created);

    let res = proxy.pay_dispute(claimer, dispute_id, amount);
    assert!(res.is_err());

    proxy.pay_dispute(defender, dispute_id, amount).unwrap();
    let dispute = proxy.get_dispute(dispute_id).unwrap();
    assert!(dispute.claimer_paid);
    assert!(dispute.defender_paid);
    assert!(dispute.status == DisputeStatus::Funded);
}

#[test]
fn test_submit_evidence_permissions() {
    let mut proxy = setup();
    let claimer = Identity { id: 10 };
    let defender = Identity { id: 11 };
    let stranger = Identity { id: 12 };

    let params = create_params(ARBITRABLE, claimer, defender, 1_000_000);
    let dispute_id = proxy.create_dispute(params, 0).unwrap();
    let evidence = [2u8; 32];

    proxy.submit_evidence(claimer, dispute_id, evidence).unwrap();
    proxy.submit_evidence(defender, dispute_id, evidence).unwrap();
    proxy.submit_evidence(ARBITRABLE, dispute_id, evidence).unwrap();

    let res = proxy.submit_evidence(stranger, dispute_id, evidence);
    assert!(res.is_err());
}

#[test]
fn test_remote_binding_and_lookup() {
    let mut proxy = setup();

    let p1 = create_params(ARBITRABLE, Identity { id: 10 }, Identity { id: 11 }, 1_000_000);
    let p2 = create_params(ARBITRABLE, Identity { id: 12 }, Identity { id: 13 }, 1_000_000);

    let d1 = proxy.create_dispute(p1, 0).unwrap();
    let d2 = proxy.create_dispute(p2, 0).unwrap();

    proxy.bind_remote_dispute(RELAYER, d1, 100).unwrap();
    assert_eq!(proxy.get_local_by_remote(100), Some(d1));

    let res = proxy.bind_remote_dispute(RELAYER, d1, 101);
    assert!(res.is_err());

    let res = proxy.bind_remote_dispute(RELAYER, d2, 100);
    assert!(res.is_err());
}

#[test]
fn test_rule_requires_remote_and_allows_single_assignment() {
    let mut proxy = setup();

    let params = create_params(ARBITRABLE, Identity { id: 10 }, Identity { id: 11 }, 1_000_000);
    let dispute_id = proxy.create_dispute(params, 0).unwrap();

    let res = proxy.rule(RELAYER, dispute_id, 1);
    assert!(res.is_err());

    proxy.bind_remote_dispute(RELAYER, dispute_id, 501).unwrap();

    let res = proxy.rule(RELAYER, dispute_id, 2);
    assert!(res.is_err());

    proxy.rule(RELAYER, dispute_id, 1).unwrap();
    let dispute = proxy.get_dispute(dispute_id).unwrap();
    assert_eq!(dispute.ruling, Some(1));
    assert!(dispute.status == DisputeStatus::Ruled);

    let res = proxy.rule(RELAYER, dispute_id, 0);
    assert!(res.is_err());
}

#[test]
fn test_execute_rule_calls_arbitrable_and_is_idempotent() {
    let mut proxy = setup();
    let claimer = Identity { id: 10 };
    let defender = Identity { id: 11 };

    let params = create_params(ARBITRABLE, claimer, defender, 1_000_000);
    let dispute_id = proxy.create_dispute(params, 0).unwrap();

    let res = proxy.execute_rule(dispute_id);
    assert!(res.is_err());

    proxy.bind_remote_dispute(RELAYER, dispute_id, 700).unwrap();
    proxy.rule(RELAYER, dispute_id, 1).unwrap();
    let call = proxy.execute_rule(dispute_id).unwrap();

    let dispute = proxy.get_dispute(dispute_id).unwrap();
    assert!(dispute.rule_executed);
    assert!(dispute.status == DisputeStatus::Executed);

    let observed = (call.local_dispute_id, call.ruling);
    assert_eq!(observed, (dispute_id, 1));

    let res = proxy.execute_rule(dispute_id);
    assert!(res.is_err());
    assert_eq!(res, Err(ContractError::ErrAlreadyExecuted));
}
