//! The dispute registry and lifecycle state machine.
//!
//! `JustlyProxy` holds everything the host environment would persist for the
//! contract: the configuration singleton, the monotonic dispute counter, the
//! dispute table, the remote-to-local binding index, and the ordered log of
//! notifications. Each operation takes the caller identity the host has
//! already authenticated, re-validates every precondition against the
//! current state, either mutates the state and appends exactly one event, or
//! returns a typed error and leaves the state untouched.

use vstd::prelude::*;

use crate::error::ContractError;
use crate::types::{
    create_params_ok, dispute_after_bind, dispute_after_execute, dispute_after_pay,
    dispute_after_rule, dispute_created, dispute_wf, evidence_allowed, execute_check, pay_check,
    rule_check, ArbitrableCall, Config, CreateDisputeParams, DisputeStatus, Event, Identity,
    ProxyDispute,
};

verus! {

/// The local dispute id a remote dispute id resolves to: the pair whose
/// first component matches, scanning the index front to back. The binding
/// operation never records a remote id twice, so at most one pair matches.
pub open spec fn lookup_remote(bs: Seq<(u64, u64)>, remote_id: u64) -> Option<u64>
    decreases bs.len(),
{
    if bs.len() == 0 {
        None
    } else if bs[0].0 == remote_id {
        Some(bs[0].1)
    } else {
        lookup_remote(bs.drop_first(), remote_id)
    }
}

/// A remote id resolves to nothing exactly when no recorded pair carries it.
pub proof fn lemma_lookup_none_iff_absent(bs: Seq<(u64, u64)>, remote_id: u64)
    ensures
        lookup_remote(bs, remote_id) is None <==> (forall|i: int|
            0 <= i < bs.len() ==> (#[trigger] bs[i]).0 != remote_id),
    decreases bs.len(),
{
    if bs.len() > 0 {
        lemma_lookup_none_iff_absent(bs.drop_first(), remote_id);
        assert(forall|i: int|
            0 <= i < bs.drop_first().len() ==> #[trigger] bs.drop_first()[i] == bs[i + 1]);
        assert(forall|i: int|
            1 <= i < bs.len() ==> #[trigger] bs[i] == bs.drop_first()[i - 1]);
    }
}

/// Recording one more pair resolves its remote id to its local id if the
/// remote id was free, and leaves every other resolution as it was. This is
/// the single-assignment law of the index: a bind of a fresh remote id
/// becomes visible, and no bind ever changes an existing resolution.
pub proof fn lemma_lookup_push(bs: Seq<(u64, u64)>, p: (u64, u64), remote_id: u64)
    ensures
        lookup_remote(bs.push(p), remote_id) == (if lookup_remote(bs, remote_id) is Some {
            lookup_remote(bs, remote_id)
        } else if p.0 == remote_id {
            Some(p.1)
        } else {
            None
        }),
    decreases bs.len(),
{
    if bs.len() == 0 {
        assert(bs.push(p)[0] == p);
        assert(bs.push(p).drop_first() =~= Seq::<(u64, u64)>::empty());
        assert(lookup_remote(Seq::<(u64, u64)>::empty(), remote_id) is None);
    } else {
        assert(bs.push(p)[0] == bs[0]);
        assert(bs.push(p).drop_first() =~= bs.drop_first().push(p));
        lemma_lookup_push(bs.drop_first(), p, remote_id);
        assert(lookup_remote(bs.push(p), remote_id) == (if bs[0].0 == remote_id {
            Some(bs[0].1)
        } else {
            lookup_remote(bs.drop_first().push(p), remote_id)
        }));
    }
}

/// Every dispute record is well formed and sits at the slot its id names:
/// the record with id `i + 1` is stored at index `i`, so ids are assigned
/// 1, 2, 3, ... in creation order.
pub open spec fn disputes_wf(ds: Seq<ProxyDispute>) -> bool {
    forall|i: int| #![trigger ds[i]] 0 <= i < ds.len() ==> ds[i].id == i + 1 && dispute_wf(ds[i])
}

/// The remote-to-local index and the dispute table agree:
/// - every recorded pair points at an existing dispute that carries exactly
///   that remote id;
/// - no remote id is recorded twice;
/// - every dispute that carries a remote id is found by the index, under its
///   own local id.
pub open spec fn bindings_wf(bs: Seq<(u64, u64)>, ds: Seq<ProxyDispute>) -> bool {
    &&& forall|i: int| #![trigger bs[i]]
        0 <= i < bs.len() ==> 1 <= bs[i].1 <= ds.len() && ds[bs[i].1 - 1].remote_dispute_id
            == Some(bs[i].0)
    &&& forall|i: int, j: int| #![trigger bs[i], bs[j]]
        0 <= i < bs.len() && 0 <= j < bs.len() && i != j ==> bs[i].0 != bs[j].0
    &&& forall|k: int| #![trigger ds[k]]
        0 <= k < ds.len() && ds[k].remote_dispute_id is Some ==> lookup_remote(
            bs,
            ds[k].remote_dispute_id.unwrap(),
        ) == Some((k + 1) as u64)
}

/// The persistent state of the arbitration proxy.
pub struct JustlyProxy {
    /// The configuration singleton; absent until `initialize` has run.
    pub config: Option<Config>,
    /// The monotonic dispute counter; equals the number of disputes created.
    pub counter: u64,
    /// The dispute table; the record with id `i + 1` sits at index `i`.
    pub disputes: Vec<ProxyDispute>,
    /// The remote-to-local index: pairs of (remote dispute id, local id).
    pub remote_bindings: Vec<(u64, u64)>,
    /// The ordered, append-only log of notifications.
    pub events: Vec<Event>,
}

impl JustlyProxy {
    /// The state invariant, established by `new` and preserved by every
    /// operation.
    pub open spec fn wf(self) -> bool {
        &&& self.counter == self.disputes@.len()
        &&& disputes_wf(self.disputes@)
        &&& bindings_wf(self.remote_bindings@, self.disputes@)
    }

    /// Whether a dispute with this local id exists.
    pub open spec fn has_dispute(self, dispute_id: u64) -> bool {
        1 <= dispute_id <= self.disputes@.len()
    }

    /// The stored record of an existing dispute.
    pub open spec fn dispute_at(self, dispute_id: u64) -> ProxyDispute {
        self.disputes@[dispute_id - 1]
    }

    /// An empty state: no configuration, no disputes, no bindings, no
    /// events. Operations that need the configuration fail with
    /// `ErrConfigMissing` until `initialize` has run.
    pub fn new() -> (s: Self)
        ensures
            s.wf(),
            s.config is None,
            s.counter == 0,
            s.disputes@ == Seq::<ProxyDispute>::empty(),
            s.remote_bindings@ == Seq::<(u64, u64)>::empty(),
            s.events@ == Seq::<Event>::empty(),
    {
        JustlyProxy {
            config: None,
            counter: 0,
            disputes: Vec::new(),
            remote_bindings: Vec::new(),
            events: Vec::new(),
        }
    }

    /// System creation: stores the two privileged identities and resets the
    /// dispute counter. The host runs this exactly once, on fresh storage,
    /// after authenticating the admin.
    pub fn initialize(&mut self, admin: Identity, relayer: Identity)
        requires
            old(self).config is None,
            old(self).counter == 0,
            old(self).disputes@.len() == 0,
            old(self).remote_bindings@.len() == 0,
            old(self).events@.len() == 0,
        ensures
            final(self).wf(),
            final(self).config == Some(Config { admin, relayer }),
            final(self).counter == 0,
            final(self).disputes@ == old(self).disputes@,
            final(self).remote_bindings@ == old(self).remote_bindings@,
            final(self).events@ == old(self).events@,
    {
        self.config = Some(Config { admin, relayer });
        self.counter = 0;
    }

    /// The configured relayer, or `ErrConfigMissing` before initialization.
    pub fn get_relayer(&self) -> (r: Result<Identity, ContractError>)
        ensures
            match self.config {
                Some(cfg) => r == Ok::<Identity, ContractError>(cfg.relayer),
                None => r == Err::<Identity, ContractError>(ContractError::ErrConfigMissing),
            },
    {
        match &self.config {
            Some(cfg) => Ok(cfg.relayer),
            None => Err(ContractError::ErrConfigMissing),
        }
    }

    /// The value of the monotonic dispute counter: the number of disputes
    /// created so far, and the id of the most recently created one.
    pub fn get_counter(&self) -> (r: u64)
        ensures
            r == self.counter,
    {
        self.counter
    }

    /// Replaces the relayer. Only the admin may do so; succeeds exactly when
    /// the state is initialized and the caller is the admin, and then emits
    /// one relayer-change notification. On any error the state is unchanged.
    pub fn set_relayer(&mut self, caller: Identity, relayer: Identity) -> (r: Result<
        (),
        ContractError,
    >)
        requires
            old(self).wf(),
        ensures
            final(self).wf(),
            match old(self).config {
                None => {
                    &&& r == Err::<(), ContractError>(ContractError::ErrConfigMissing)
                    &&& *final(self) == *old(self)
                },
                Some(cfg) => {
                    if caller != cfg.admin {
                        &&& r == Err::<(), ContractError>(ContractError::ErrUnauthorized)
                        &&& *final(self) == *old(self)
                    } else {
                        &&& r == Ok::<(), ContractError>(())
                        &&& final(self).config == Some(Config { admin: cfg.admin, relayer })
                        &&& final(self).counter == old(self).counter
                        &&& final(self).disputes@ == old(self).disputes@
                        &&& final(self).remote_bindings@ == old(self).remote_bindings@
                        &&& final(self).events@ == old(self).events@.push(
                            (Event::RelayerChanged { relayer }),
                        )
                    }
                },
            },
    {
        let cfg = match &self.config {
            Some(cfg) => *cfg,
            None => {
                return Err(ContractError::ErrConfigMissing);
            },
        };
        if caller != cfg.admin {
            return Err(ContractError::ErrUnauthorized);
        }
        self.config = Some(Config { admin: cfg.admin, relayer });
        self.events.push(Event::RelayerChanged { relayer });
        Ok(())
    }

    /// Opens a dispute. The host authenticates the claimer named in the
    /// parameters before this runs. Succeeds exactly when the parties
    /// differ, the juror count is positive, and the stake is positive;
    /// otherwise fails with `ErrInvalidInput` and changes nothing. On
    /// success the new record echoes the parameters with every payment,
    /// binding, and ruling field at its default, the counter advances by
    /// one, the new id (counter value) is returned, and one `Created`
    /// notification is appended.
    pub fn create_dispute(&mut self, params: CreateDisputeParams, created_at: u64) -> (r: Result<
        u64,
        ContractError,
    >)
        requires
            old(self).wf(),
            old(self).counter < u64::MAX,
        ensures
            final(self).wf(),
            if create_params_ok(params) {
                &&& r == Ok::<u64, ContractError>((old(self).counter + 1) as u64)
                &&& final(self).counter == old(self).counter + 1
                &&& final(self).disputes@ == old(self).disputes@.push(
                    dispute_created((old(self).counter + 1) as u64, params, created_at),
                )
                &&& final(self).remote_bindings@ == old(self).remote_bindings@
                &&& final(self).config == old(self).config
                &&& final(self).events@ == old(self).events@.push(
                    (Event::Created {
                        dispute_id: (old(self).counter + 1) as u64,
                        arbitrable: params.arbitrable,
                        claimer: params.claimer,
                        defender: params.defender,
                        category: params.category,
                        jurors_required: params.jurors_required,
                        required_amount: params.required_amount,
                    }),
                )
            } else {
                &&& r == Err::<u64, ContractError>(ContractError::ErrInvalidInput)
                &&& *final(self) == *old(self)
            },
    {
        if params.claimer == params.defender || params.jurors_required == 0
            || params.required_amount <= 0 {
            return Err(ContractError::ErrInvalidInput);
        }

        let id = self.counter + 1;
        self.counter = id;
        let dispute = ProxyDispute {
            id,
            arbitrable: params.arbitrable,
            claimer: params.claimer,
            defender: params.defender,
            category: params.category.clone(),
            root_evidence_hash: params.root_evidence_hash,
            jurors_required: params.jurors_required,
            pay_seconds: params.pay_seconds,
            evidence_seconds: params.evidence_seconds,
            commit_seconds: params.commit_seconds,
            reveal_seconds: params.reveal_seconds,
            required_amount: params.required_amount,
            claimer_paid: false,
            defender_paid: false,
            claimer_amount: 0,
            defender_amount: 0,
            remote_dispute_id: None,
            ruling: None,
            rule_executed: false,
            status: DisputeStatus::Created,
            created_at,
        };
        self.disputes.push(dispute);
        self.events.push(Event::Created {
            dispute_id: id,
            arbitrable: params.arbitrable,
            claimer: params.claimer,
            defender: params.defender,
            category: params.category,
            jurors_required: params.jurors_required,
            required_amount: params.required_amount,
        });
        Ok(id)
    }

    /// Records a stake payment. The host authenticates the payer before
    /// this runs. Fails `ErrNotFound` for an unknown dispute,
    /// `ErrInvalidAmount` for any amount other than the required stake,
    /// `ErrAlreadyPaid` for a party that already paid, and
    /// `ErrUnauthorized` for a payer that is neither party; every error
    /// leaves the state unchanged. On success the payer's flag and exact
    /// amount are recorded, the status advances to `Funded` exactly when
    /// this payment completes the funding of a dispute not yet ruled, and
    /// one `Paid` notification is appended.
    pub fn pay_dispute(&mut self, payer: Identity, dispute_id: u64, amount: i128) -> (r: Result<
        (),
        ContractError,
    >)
        requires
            old(self).wf(),
        ensures
            final(self).wf(),
            !old(self).has_dispute(dispute_id) ==> {
                &&& r == Err::<(), ContractError>(ContractError::ErrNotFound)
                &&& *final(self) == *old(self)
            },
            old(self).has_dispute(dispute_id) ==> ({
                let d = old(self).dispute_at(dispute_id);
                match pay_check(d, payer, amount) {
                    Err(e) => {
                        &&& r == Err::<(), ContractError>(e)
                        &&& *final(self) == *old(self)
                    },
                    Ok(_) => {
                        &&& r == Ok::<(), ContractError>(())
                        &&& final(self).disputes@ == old(self).disputes@.update(
                            dispute_id - 1,
                            dispute_after_pay(d, payer),
                        )
                        &&& final(self).counter == old(self).counter
                        &&& final(self).config == old(self).config
                        &&& final(self).remote_bindings@ == old(self).remote_bindings@
                        &&& final(self).events@ == old(self).events@.push(
                            (Event::Paid { dispute_id, payer, amount }),
                        )
                    },
                }
            }),
    {
        if dispute_id == 0 || dispute_id > self.disputes.len() as u64 {
            return Err(ContractError::ErrNotFound);
        }
        let idx: usize = (dispute_id - 1) as usize;

        if amount != self.disputes[idx].required_amount {
            return Err(ContractError::ErrInvalidAmount);
        }

        if payer == self.disputes[idx].claimer {
            if self.disputes[idx].claimer_paid {
                return Err(ContractError::ErrAlreadyPaid);
            }
            let d = &mut self.disputes[idx];
            d.claimer_paid = true;
            d.claimer_amount = amount;
            if d.defender_paid && d.status == DisputeStatus::Created {
                d.status = DisputeStatus::Funded;
            }
        } else if payer == self.disputes[idx].defender {
            if self.disputes[idx].defender_paid {
                return Err(ContractError::ErrAlreadyPaid);
            }
            let d = &mut self.disputes[idx];
            d.defender_paid = true;
            d.defender_amount = amount;
            if d.claimer_paid && d.status == DisputeStatus::Created {
                d.status = DisputeStatus::Funded;
            }
        } else {
            return Err(ContractError::ErrUnauthorized);
        }

        self.events.push(Event::Paid { dispute_id, payer, amount });
        Ok(())
    }

    /// Accepts an evidence pointer. The host authenticates the submitter
    /// before this runs. Fails `ErrNotFound` for an unknown dispute and
    /// `ErrUnauthorized` unless the submitter is the claimer, the defender,
    /// or the arbitrable contract. No dispute record is ever changed; on
    /// success exactly one `Evidence` notification is appended.
    pub fn submit_evidence(
        &mut self,
        submitter: Identity,
        dispute_id: u64,
        evidence_hash: [u8; 32],
    ) -> (r: Result<(), ContractError>)
        requires
            old(self).wf(),
        ensures
            final(self).wf(),
            final(self).disputes@ == old(self).disputes@,
            final(self).remote_bindings@ == old(self).remote_bindings@,
            final(self).config == old(self).config,
            final(self).counter == old(self).counter,
            !old(self).has_dispute(dispute_id) ==> {
                &&& r == Err::<(), ContractError>(ContractError::ErrNotFound)
                &&& *final(self) == *old(self)
            },
            old(self).has_dispute(dispute_id) ==> ({
                let d = old(self).dispute_at(dispute_id);
                if !evidence_allowed(d, submitter) {
                    &&& r == Err::<(), ContractError>(ContractError::ErrUnauthorized)
                    &&& *final(self) == *old(self)
                } else {
                    &&& r == Ok::<(), ContractError>(())
                    &&& final(self).events@ == old(self).events@.push(
                        (Event::Evidence { dispute_id, submitter, evidence_hash }),
                    )
                }
            }),
    {
        if dispute_id == 0 || dispute_id > self.disputes.len() as u64 {
            return Err(ContractError::ErrNotFound);
        }
        let idx: usize = (dispute_id - 1) as usize;

        if submitter != self.disputes[idx].claimer && submitter != self.disputes[idx].defender
            && submitter != self.disputes[idx].arbitrable {
            return Err(ContractError::ErrUnauthorized);
        }

        self.events.push(Event::Evidence { dispute_id, submitter, evidence_hash });
        Ok(())
    }

    /// The local dispute id a remote id is bound to, if any.
    pub fn get_local_by_remote(&self, remote_dispute_id: u64) -> (r: Option<u64>)
        ensures
            r == lookup_remote(self.remote_bindings@, remote_dispute_id),
    {
        let n = self.remote_bindings.len();
        proof {
            assert(self.remote_bindings@.subrange(0, n as int) =~= self.remote_bindings@);
        }
        let mut i: usize = 0;
        while i < n
            invariant
                n == self.remote_bindings@.len(),
                0 <= i <= n,
                lookup_remote(self.remote_bindings@, remote_dispute_id) == lookup_remote(
                    self.remote_bindings@.subrange(i as int, n as int),
                    remote_dispute_id,
                ),
            decreases n - i,
        {
            let pair = self.remote_bindings[i];
            if pair.0 == remote_dispute_id {
                proof {
                    assert(self.remote_bindings@.subrange(i as int, n as int)[0] == pair);
                }
                return Some(pair.1);
            }
            proof {
                assert(self.remote_bindings@.subrange(i as int, n as int).drop_first()
                    =~= self.remote_bindings@.subrange(i as int + 1, n as int));
            }
            i = i + 1;
        }
        proof {
            assert(self.remote_bindings@.subrange(n as int, n as int) =~= Seq::<(u64, u64)>::empty());
        }
        None
    }

    /// Binds a local dispute to a remote dispute id, once. Only the relayer
    /// may do so. Fails `ErrConfigMissing` before initialization,
    /// `ErrUnauthorized` for any other caller, `ErrNotFound` for an unknown
    /// dispute, `ErrAlreadyBound` when the dispute already carries a remote
    /// id, and `ErrRemoteAlreadyUsed` when the remote id is already bound
    /// to any dispute; every error leaves the state unchanged. On success
    /// the remote id is recorded on the dispute and in the reverse index,
    /// and one `Bound` notification is appended.
    pub fn bind_remote_dispute(
        &mut self,
        caller: Identity,
        local_dispute_id: u64,
        remote_dispute_id: u64,
    ) -> (r: Result<(), ContractError>)
        requires
            old(self).wf(),
        ensures
            final(self).wf(),
            match old(self).config {
                None => {
                    &&& r == Err::<(), ContractError>(ContractError::ErrConfigMissing)
                    &&& *final(self) == *old(self)
                },
                Some(cfg) => {
                    if caller != cfg.relayer {
                        &&& r == Err::<(), ContractError>(ContractError::ErrUnauthorized)
                        &&& *final(self) == *old(self)
                    } else if !old(self).has_dispute(local_dispute_id) {
                        &&& r == Err::<(), ContractError>(ContractError::ErrNotFound)
                        &&& *final(self) == *old(self)
                    } else {
                        let d = old(self).dispute_at(local_dispute_id);
                        if d.remote_dispute_id is Some {
                            &&& r == Err::<(), ContractError>(ContractError::ErrAlreadyBound)
                            &&& *final(self) == *old(self)
                        } else if lookup_remote(
                            old(self).remote_bindings@,
                            remote_dispute_id,
                        ) is Some {
                            &&& r == Err::<(), ContractError>(ContractError::ErrRemoteAlreadyUsed)
                            &&& *final(self) == *old(self)
                        } else {
                            &&& r == Ok::<(), ContractError>(())
                            &&& final(self).disputes@ == old(self).disputes@.update(
                                local_dispute_id - 1,
                                dispute_after_bind(d, remote_dispute_id),
                            )
                            &&& final(self).remote_bindings@ == old(self).remote_bindings@.push(
                                ((remote_dispute_id, local_dispute_id)),
                            )
                            &&& final(self).counter == old(self).counter
                            &&& final(self).config == old(self).config
                            &&& final(self).events@ == old(self).events@.push(
                                (Event::Bound { local_dispute_id, remote_dispute_id }),
                            )
                        }
                    }
                },
            },
    {
        let cfg = match &self.config {
            Some(cfg) => *cfg,
            None => {
                return Err(ContractError::ErrConfigMissing);
            },
        };
        if caller != cfg.relayer {
            return Err(ContractError::ErrUnauthorized);
        }
        if local_dispute_id == 0 || local_dispute_id > self.disputes.len() as u64 {
            return Err(ContractError::ErrNotFound);
        }
        let idx: usize = (local_dispute_id - 1) as usize;

        if self.disputes[idx].remote_dispute_id.is_some() {
            return Err(ContractError::ErrAlreadyBound);
        }
        if self.get_local_by_remote(remote_dispute_id).is_some() {
            return Err(ContractError::ErrRemoteAlreadyUsed);
        }

        proof {
            lemma_lookup_none_iff_absent(self.remote_bindings@, remote_dispute_id);
        }
        let d = &mut self.disputes[idx];
        d.remote_dispute_id = Some(remote_dispute_id);
        self.remote_bindings.push((remote_dispute_id, local_dispute_id));
        self.events.push(Event::Bound { local_dispute_id, remote_dispute_id });
        proof {
            let bs = old(self).remote_bindings@;
            let ds = self.disputes@;
            assert forall|r2: u64| true implies lookup_remote(
                self.remote_bindings@,
                r2,
            ) == (if lookup_remote(bs, r2) is Some {
                lookup_remote(bs, r2)
            } else if r2 == remote_dispute_id {
                Some(local_dispute_id)
            } else {
                None
            }) by {
                lemma_lookup_push(bs, (remote_dispute_id, local_dispute_id), r2);
            }
            assert forall|k: int|
                0 <= k < ds.len() && (#[trigger] ds[k]).remote_dispute_id is Some implies lookup_remote(
                self.remote_bindings@,
                ds[k].remote_dispute_id.unwrap(),
            ) == Some((k + 1) as u64) by {
                if k != local_dispute_id - 1 {
                    assert(ds[k] == old(self).disputes@[k]);
                }
            }
        }
        Ok(())
    }

    /// Records the remote arbitration outcome. Only the relayer may do so.
    /// Fails `ErrConfigMissing` before initialization, `ErrUnauthorized`
    /// for any other caller, `ErrNotFound` for an unknown dispute,
    /// `ErrInvalidInput` for a ruling outside {0, 1}, `ErrRemoteMissing`
    /// before a remote binding exists, and `ErrRulingAlreadySet` once a
    /// ruling is recorded; every error leaves the state unchanged. On
    /// success the ruling is recorded once, the status becomes `Ruled`, and
    /// one `Ruling` notification is appended.
    pub fn rule(&mut self, caller: Identity, local_dispute_id: u64, ruling: u32) -> (r: Result<
        (),
        ContractError,
    >)
        requires
            old(self).wf(),
        ensures
            final(self).wf(),
            match old(self).config {
                None => {
                    &&& r == Err::<(), ContractError>(ContractError::ErrConfigMissing)
                    &&& *final(self) == *old(self)
                },
                Some(cfg) => {
                    if caller != cfg.relayer {
                        &&& r == Err::<(), ContractError>(ContractError::ErrUnauthorized)
                        &&& *final(self) == *old(self)
                    } else if !old(self).has_dispute(local_dispute_id) {
                        &&& r == Err::<(), ContractError>(ContractError::ErrNotFound)
                        &&& *final(self) == *old(self)
                    } else {
                        let d = old(self).dispute_at(local_dispute_id);
                        match rule_check(d, ruling) {
                            Err(e) => {
                                &&& r == Err::<(), ContractError>(e)
                                &&& *final(self) == *old(self)
                            },
                            Ok(_) => {
                                &&& r == Ok::<(), ContractError>(())
                                &&& final(self).disputes@ == old(self).disputes@.update(
                                    local_dispute_id - 1,
                                    dispute_after_rule(d, ruling),
                                )
                                &&& final(self).remote_bindings@ == old(self).remote_bindings@
                                &&& final(self).counter == old(self).counter
                                &&& final(self).config == old(self).config
                                &&& final(self).events@ == old(self).events@.push(
                                    (Event::Ruling { dispute_id: local_dispute_id, ruling }),
                                )
                            },
                        }
                    }
                },
            },
    {
        let cfg = match &self.config {
            Some(cfg) => *cfg,
            None => {
                return Err(ContractError::ErrConfigMissing);
            },
        };
        if caller != cfg.relayer {
            return Err(ContractError::ErrUnauthorized);
        }
        if local_dispute_id == 0 || local_dispute_id > self.disputes.len() as u64 {
            return Err(ContractError::ErrNotFound);
        }
        let idx: usize = (local_dispute_id - 1) as usize;

        if ruling > 1 {
            return Err(ContractError::ErrInvalidInput);
        }
        if self.disputes[idx].remote_dispute_id.is_none() {
            return Err(ContractError::ErrRemoteMissing);
        }
        if self.disputes[idx].ruling.is_some() {
            return Err(ContractError::ErrRulingAlreadySet);
        }

        let d = &mut self.disputes[idx];
        d.ruling = Some(ruling);
        d.status = DisputeStatus::Ruled;
        self.events.push(Event::Ruling { dispute_id: local_dispute_id, ruling });
        proof {
            lemma_update_keeps_bindings(
                old(self).remote_bindings@,
                old(self).disputes@,
                self.disputes@,
                local_dispute_id - 1,
            );
        }
        Ok(())
    }

    /// Triggers settlement. Any caller may do so once a ruling exists;
    /// execution is a public, idempotence-guarded trigger. Fails
    /// `ErrNotFound` for an unknown dispute, `ErrAlreadyExecuted` on a
    /// second trigger, and `ErrRulingMissing` before a ruling is recorded;
    /// every error leaves the state unchanged. On success the one-shot
    /// marker is set, the status becomes `Executed`, one `Executed`
    /// notification is appended, and the invocation the host must deliver
    /// to the arbitrable contract — carrying exactly the local dispute id
    /// and the recorded ruling — is returned. The host delivers it within
    /// the same atomic unit, so a failed invocation rolls this state change
    /// back.
    pub fn execute_rule(&mut self, local_dispute_id: u64) -> (r: Result<
        ArbitrableCall,
        ContractError,
    >)
        requires
            old(self).wf(),
        ensures
            final(self).wf(),
            !old(self).has_dispute(local_dispute_id) ==> {
                &&& r == Err::<ArbitrableCall, ContractError>(ContractError::ErrNotFound)
                &&& *final(self) == *old(self)
            },
            old(self).has_dispute(local_dispute_id) ==> ({
                let d = old(self).dispute_at(local_dispute_id);
                match execute_check(d) {
                    Err(e) => {
                        &&& r == Err::<ArbitrableCall, ContractError>(e)
                        &&& *final(self) == *old(self)
                    },
                    Ok(_) => {
                        &&& r == Ok::<ArbitrableCall, ContractError>(
                            (ArbitrableCall {
                                arbitrable: d.arbitrable,
                                local_dispute_id,
                                ruling: d.ruling.unwrap(),
                            }),
                        )
                        &&& final(self).disputes@ == old(self).disputes@.update(
                            local_dispute_id - 1,
                            dispute_after_execute(d),
                        )
                        &&& final(self).remote_bindings@ == old(self).remote_bindings@
                        &&& final(self).counter == old(self).counter
                        &&& final(self).config == old(self).config
                        &&& final(self).events@ == old(self).events@.push(
                            (Event::Executed {
                                dispute_id: local_dispute_id,
                                ruling: d.ruling.unwrap(),
                            }),
                        )
                    },
                }
            }),
    {
        if local_dispute_id == 0 || local_dispute_id > self.disputes.len() as u64 {
            return Err(ContractError::ErrNotFound);
        }
        let idx: usize = (local_dispute_id - 1) as usize;

        if self.disputes[idx].rule_executed {
            return Err(ContractError::ErrAlreadyExecuted);
        }
        let ruling = match self.disputes[idx].ruling {
            Some(v) => v,
            None => {
                return Err(ContractError::ErrRulingMissing);
            },
        };
        let arbitrable = self.disputes[idx].arbitrable;

        let d = &mut self.disputes[idx];
        d.rule_executed = true;
        d.status = DisputeStatus::Executed;
        self.events.push(Event::Executed { dispute_id: local_dispute_id, ruling });
        proof {
            lemma_update_keeps_bindings(
                old(self).remote_bindings@,
                old(self).disputes@,
                self.disputes@,
                local_dispute_id - 1,
            );
        }
        Ok(ArbitrableCall { arbitrable, local_dispute_id, ruling })
    }

    /// The full record of a dispute, or `ErrNotFound`.
    pub fn get_dispute(&self, local_dispute_id: u64) -> (r: Result<&ProxyDispute, ContractError>)
        ensures
            match r {
                Ok(d) => self.has_dispute(local_dispute_id) && *d == self.dispute_at(
                    local_dispute_id,
                ),
                Err(e) => e == ContractError::ErrNotFound && !self.has_dispute(local_dispute_id),
            },
    {
        if local_dispute_id == 0 || local_dispute_id > self.disputes.len() as u64 {
            return Err(ContractError::ErrNotFound);
        }
        let idx: usize = (local_dispute_id - 1) as usize;
        Ok(&self.disputes[idx])
    }
}

/// Updating one dispute without touching its remote id keeps the binding
/// index and the dispute table in agreement.
proof fn lemma_update_keeps_bindings(
    bs: Seq<(u64, u64)>,
    ds: Seq<ProxyDispute>,
    ds2: Seq<ProxyDispute>,
    k: int,
)
    requires
        bindings_wf(bs, ds),
        0 <= k < ds.len(),
        ds2 == ds.update(k, ds2[k]),
        ds2[k].remote_dispute_id == ds[k].remote_dispute_id,
    ensures
        bindings_wf(bs, ds2),
{
    assert(forall|i: int| 0 <= i < ds.len() && i != k ==> #[trigger] ds2[i] == ds[i]);
}

} // verus!
