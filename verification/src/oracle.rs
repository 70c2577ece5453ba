//! The oracle quorum validator: telemetry submissions are accepted only from
//! registered oracle nodes, only for active devices, only once per
//! (device, nonce) pair, and only with at least the configured minimum
//! number of oracle signatures. An accepted report is stored append-only,
//! the device's last-telemetry height is updated, and the reward computed
//! from the energy reading is credited to the device owner's pending
//! accrual in the token ledger — all as one atomic operation.
//!
//! Signature authenticity against the data hash is not checked here; only
//! the quorum count is enforced.

use vstd::prelude::*;

use crate::base::Origin;
use crate::base::appended;
use crate::base::clone_bytes;
use crate::kv::KvMap;
use crate::registry;
use crate::registry::DeviceStatus;
use crate::token;

verus! {

/// Validator parameters.
#[derive(Clone, Copy, PartialEq, Eq, Structural, Debug)]
pub struct Config {
    /// Minimum number of oracle signatures per accepted submission.
    pub min_oracle_nodes: u32,
    /// Staleness window for telemetry, in heights (reserved; not enforced).
    pub telemetry_timeout: u64,
}

/// A stored, validated telemetry report; never mutated once stored.
pub struct TelemetryReport {
    pub device_id: Vec<u8>,
    pub timestamp: u64,
    /// Captured carbon dioxide, in grams.
    pub co2_captured: u64,
    /// Produced energy, in watt-hours.
    pub energy_produced: u64,
    pub data_hash: [u8; 32],
    pub oracle_signatures: Vec<(u64, Vec<u8>)>,
    pub submitted_at: u64,
}

/// Validator failures.
#[derive(Clone, Copy, PartialEq, Eq, Structural, Debug)]
pub enum Error {
    /// The operation needs a different kind of caller.
    BadOrigin,
    DeviceNotFound,
    DeviceNotActive,
    InsufficientOracleSignatures,
    InvalidSignature,
    NonceAlreadyUsed,
    TelemetryTimeout,
    NotOracleNode,
    InvalidDataHash,
}

/// Validator events; each successful operation appends exactly one.
#[derive(PartialEq, Eq, Debug)]
pub enum Event {
    TelemetryVerified {
        device_id: Vec<u8>,
        co2_captured: u64,
        energy_produced: u64,
        data_hash: [u8; 32],
    },
    OracleNodeAdded { oracle: u64 },
    OracleNodeRemoved { oracle: u64 },
    TelemetryRejected { device_id: Vec<u8>, reason: Vec<u8> },
}

/// The validator state.
pub struct Pallet {
    pub config: Config,
    pub oracle_nodes: KvMap<u64, bool>,
    pub reports: KvMap<Vec<u8>, Vec<TelemetryReport>>,
    pub nonces: KvMap<(Vec<u8>, u64), bool>,
    pub events: Vec<Event>,
}

impl Pallet {
    pub open spec fn wf(self) -> bool {
        &&& self.oracle_nodes.wf()
        &&& self.reports.wf()
        &&& self.nonces.wf()
    }

    /// Whether `a` is a registered oracle node.
    pub open spec fn is_oracle(self, a: u64) -> bool {
        self.oracle_nodes.val_of(a) == Some(true)
    }

    /// Whether the replay guard has consumed (device `d`, nonce `n`).
    pub open spec fn nonce_used(self, d: Seq<u8>, n: u64) -> bool {
        self.nonces.val_of((d, n)) == Some(true)
    }

    /// The reports stored for device `d`, oldest first.
    pub open spec fn reports_of(self, d: Seq<u8>) -> Seq<TelemetryReport> {
        match self.reports.val_of(d) {
            Some(v) => v@,
            None => Seq::empty(),
        }
    }

    /// The error `submit_telemetry` reports, if any, in check order.
    pub open spec fn submit_err(
        self,
        reg: registry::Pallet,
        origin: Origin,
        device_id: Seq<u8>,
        nonce: u64,
        n_sigs: int,
    ) -> Option<Error> {
        match origin {
            Origin::Root => Some(Error::BadOrigin),
            Origin::Signed(who) => if !self.is_oracle(who) {
                Some(Error::NotOracleNode)
            } else {
                match reg.device_of(device_id) {
                    None => Some(Error::DeviceNotFound),
                    Some(d) => if d.status != DeviceStatus::Active {
                        Some(Error::DeviceNotActive)
                    } else if self.nonce_used(device_id, nonce) {
                        Some(Error::NonceAlreadyUsed)
                    } else if n_sigs < self.config.min_oracle_nodes {
                        Some(Error::InsufficientOracleSignatures)
                    } else {
                        None
                    },
                }
            },
        }
    }

    pub fn new(config: Config) -> (r: Pallet)
        ensures
            r.wf(),
            r.config == config,
            forall|a: u64| !r.is_oracle(a),
            forall|d: Seq<u8>, n: u64| !r.nonce_used(d, n),
            forall|d: Seq<u8>| r.reports_of(d) == Seq::<TelemetryReport>::empty(),
            r.events@ == Seq::<Event>::empty(),
    {
        let r = Pallet {
            config,
            oracle_nodes: KvMap::new(),
            reports: KvMap::new(),
            nonces: KvMap::new(),
            events: Vec::new(),
        };
        proof {
            assert(r.events@ =~= Seq::<Event>::empty());
        }
        r
    }

    pub fn is_oracle_node(&self, a: u64) -> (r: bool)
        requires
            self.wf(),
        ensures
            r == self.is_oracle(a),
    {
        match self.oracle_nodes.get(&a) {
            Some(b) => *b,
            None => false,
        }
    }

    pub fn is_nonce_used(&self, device_id: &Vec<u8>, nonce: u64) -> (r: bool)
        requires
            self.wf(),
        ensures
            r == self.nonce_used(device_id@, nonce),
    {
        let probe = (clone_bytes(device_id), nonce);
        match self.nonces.get(&probe) {
            Some(b) => *b,
            None => false,
        }
    }

    pub fn device_reports(&self, device_id: &Vec<u8>) -> (r: Option<&Vec<TelemetryReport>>)
        requires
            self.wf(),
        ensures
            (match r {
                Some(v) => v@ == self.reports_of(device_id@),
                None => self.reports_of(device_id@) == Seq::<TelemetryReport>::empty(),
            }),
    {
        self.reports.get(device_id)
    }

    pub fn report_count(&self, device_id: &Vec<u8>) -> (r: usize)
        requires
            self.wf(),
        ensures
            r == self.reports_of(device_id@).len(),
    {
        match self.reports.get(device_id) {
            Some(v) => v.len(),
            None => 0,
        }
    }

    /// Privileged: registers an oracle node.
    pub fn add_oracle_node(&mut self, origin: Origin, oracle: u64) -> (r: Result<(), Error>)
        requires
            old(self).wf(),
        ensures
            final(self).wf(),
            (match r {
                Ok(_) => {
                    &&& origin == Origin::Root
                    &&& final(self).is_oracle(oracle)
                    &&& forall|a: u64|
                        a != oracle ==> #[trigger] final(self).is_oracle(a) == old(self).is_oracle(
                            a,
                        )
                    &&& final(self).reports == old(self).reports
                    &&& final(self).nonces == old(self).nonces
                    &&& final(self).config == old(self).config
                    &&& appended(old(self).events@, final(self).events@)
                    &&& (final(self).events@.last() matches Event::OracleNodeAdded { oracle: o }
                        && o == oracle)
                },
                Err(e) => *final(self) == *old(self) && e == Error::BadOrigin && origin
                    != Origin::Root,
            }),
    {
        match origin {
            Origin::Root => {}
            Origin::Signed(_) => {
                return Err(Error::BadOrigin);
            }
        }
        self.oracle_nodes.set(oracle, true);
        self.events.push(Event::OracleNodeAdded { oracle });
        Ok(())
    }

    /// Privileged: removes an oracle node.
    pub fn remove_oracle_node(&mut self, origin: Origin, oracle: u64) -> (r: Result<(), Error>)
        requires
            old(self).wf(),
        ensures
            final(self).wf(),
            (match r {
                Ok(_) => {
                    &&& origin == Origin::Root
                    &&& !final(self).is_oracle(oracle)
                    &&& forall|a: u64|
                        a != oracle ==> #[trigger] final(self).is_oracle(a) == old(self).is_oracle(
                            a,
                        )
                    &&& final(self).reports == old(self).reports
                    &&& final(self).nonces == old(self).nonces
                    &&& final(self).config == old(self).config
                    &&& appended(old(self).events@, final(self).events@)
                    &&& (final(self).events@.last() matches Event::OracleNodeRemoved { oracle: o }
                        && o == oracle)
                },
                Err(e) => *final(self) == *old(self) && e == Error::BadOrigin && origin
                    != Origin::Root,
            }),
    {
        match origin {
            Origin::Root => {}
            Origin::Signed(_) => {
                return Err(Error::BadOrigin);
            }
        }
        let _removed = self.oracle_nodes.remove_take(&oracle);
        self.events.push(Event::OracleNodeRemoved { oracle });
        Ok(())
    }

    /// Validates and stores a telemetry submission, marks its nonce as
    /// consumed, updates the device's last-telemetry height, and credits the
    /// reward for the energy reading to the device owner's pending accrual.
    pub fn submit_telemetry(
        &mut self,
        reg: &mut registry::Pallet,
        tok: &mut token::Pallet,
        origin: Origin,
        device_id: Vec<u8>,
        timestamp: u64,
        co2_captured: u64,
        energy_produced: u64,
        data_hash: [u8; 32],
        nonce: u64,
        oracle_signatures: Vec<(u64, Vec<u8>)>,
        now: u64,
    ) -> (r: Result<(), Error>)
        requires
            old(self).wf(),
            old(reg).wf(),
            old(tok).wf(),
        ensures
            final(self).wf(),
            final(reg).wf(),
            final(tok).wf(),
            (match r {
                Ok(_) => {
                    &&& old(self).submit_err(
                        *old(reg),
                        origin,
                        device_id@,
                        nonce,
                        oracle_signatures@.len() as int,
                    ) is None
                    &&& submit_post(
                        *old(self),
                        *final(self),
                        *old(reg),
                        *final(reg),
                        *old(tok),
                        *final(tok),
                        device_id@,
                        timestamp,
                        co2_captured,
                        energy_produced,
                        data_hash@,
                        oracle_signatures.deep_view(),
                        nonce,
                        now,
                    )
                },
                Err(e) => {
                    &&& *final(self) == *old(self)
                    &&& *final(reg) == *old(reg)
                    &&& *final(tok) == *old(tok)
                    &&& old(self).submit_err(
                        *old(reg),
                        origin,
                        device_id@,
                        nonce,
                        oracle_signatures@.len() as int,
                    ) == Some(e)
                },
            }),
    {
        let who = match origin {
            Origin::Signed(w) => w,
            Origin::Root => {
                return Err(Error::BadOrigin);
            }
        };
        if !self.is_oracle_node(who) {
            return Err(Error::NotOracleNode);
        }
        let dev_owner = match reg.device(&device_id) {
            None => {
                return Err(Error::DeviceNotFound);
            }
            Some(d) => {
                if !(d.status == DeviceStatus::Active) {
                    return Err(Error::DeviceNotActive);
                }
                d.owner
            }
        };
        let nonce_key = (clone_bytes(&device_id), nonce);
        let replay = match self.nonces.get(&nonce_key) {
            Some(b) => *b,
            None => false,
        };
        if replay {
            return Err(Error::NonceAlreadyUsed);
        }
        if oracle_signatures.len() < self.config.min_oracle_nodes as usize {
            return Err(Error::InsufficientOracleSignatures);
        }
        // all checks passed: commit
        let reward = tok.calculate_reward(energy_produced);
        let report = TelemetryReport {
            device_id: clone_bytes(&device_id),
            timestamp,
            co2_captured,
            energy_produced,
            data_hash,
            oracle_signatures,
            submitted_at: now,
        };
        let (list_key, mut list) = match self.reports.remove_take(&device_id) {
            Some(kv) => (kv.0, kv.1),
            None => (clone_bytes(&device_id), Vec::new()),
        };
        list.push(report);
        self.reports.set(list_key, list);
        self.nonces.set(nonce_key, true);
        reg.touch_telemetry(&device_id, now);
        tok.add_pending_reward(dev_owner, reward);
        self.events.push(
            Event::TelemetryVerified { device_id, co2_captured, energy_produced, data_hash },
        );
        Ok(())
    }
}

/// State relation of a successful telemetry submission across the three
/// modules it touches.
pub open spec fn submit_post(
    pre: Pallet,
    post: Pallet,
    reg_pre: registry::Pallet,
    reg_post: registry::Pallet,
    tok_pre: token::Pallet,
    tok_post: token::Pallet,
    device_id: Seq<u8>,
    timestamp: u64,
    co2_captured: u64,
    energy_produced: u64,
    data_hash: Seq<u8>,
    sigs: Seq<(u64, Seq<u8>)>,
    nonce: u64,
    now: u64,
) -> bool {
    let reward = token::reward_amount(energy_produced, tok_pre.config.mint_rate_per_kwh);
    &&& post.config == pre.config
    &&& post.oracle_nodes == pre.oracle_nodes
    &&& appended(pre.reports_of(device_id), post.reports_of(device_id))
    &&& {
        let rep = post.reports_of(device_id).last();
        &&& rep.device_id@ == device_id
        &&& rep.timestamp == timestamp
        &&& rep.co2_captured == co2_captured
        &&& rep.energy_produced == energy_produced
        &&& rep.data_hash@ == data_hash
        &&& rep.oracle_signatures.deep_view() == sigs
        &&& rep.submitted_at == now
    }
    &&& forall|d2: Seq<u8>|
        d2 != device_id ==> #[trigger] post.reports_of(d2) == pre.reports_of(d2)
    &&& post.nonce_used(device_id, nonce)
    &&& forall|p2: (Seq<u8>, u64)|
        p2 != (device_id, nonce) ==> #[trigger] post.nonces.val_of(p2) == pre.nonces.val_of(p2)
    &&& reg_pre.device_of(device_id) matches Some(d) && {
        &&& reg_post.device_of(device_id) == (Some(
            registry::Device { last_telemetry: now, ..d },
        ))
        &&& tok_post.pending(d.owner) == (if tok_pre.pending(d.owner) + reward <= u128::MAX {
            tok_pre.pending(d.owner) + reward
        } else {
            u128::MAX as int
        })
        &&& forall|a: u64|
            a != d.owner ==> #[trigger] tok_post.pending(a) == tok_pre.pending(a)
    }
    &&& forall|d2: Seq<u8>|
        d2 != device_id ==> #[trigger] reg_post.device_of(d2) == reg_pre.device_of(d2)
    &&& reg_post.owner_index == reg_pre.owner_index
    &&& reg_post.whitelist == reg_pre.whitelist
    &&& reg_post.free == reg_pre.free
    &&& reg_post.reserved == reg_pre.reserved
    &&& reg_post.events == reg_pre.events
    &&& reg_post.config == reg_pre.config
    &&& tok_post.balances == tok_pre.balances
    &&& tok_post.total_supply == tok_pre.total_supply
    &&& tok_post.allowances == tok_pre.allowances
    &&& tok_post.events == tok_pre.events
    &&& tok_post.config == tok_pre.config
    &&& appended(pre.events@, post.events@)
    &&& (post.events@.last() matches Event::TelemetryVerified {
        device_id: d2,
        co2_captured: c2,
        energy_produced: e2,
        data_hash: h2,
    } && d2@ == device_id && c2 == co2_captured && e2 == energy_produced && h2@ == data_hash)
}

/// Replay protection: once a submission for (device, nonce) has succeeded,
/// any further submission by the same oracle for the same (device, nonce)
/// is rejected as a replay, whatever its other arguments; by the submission
/// contract a rejected call leaves all three modules' state unchanged.
pub proof fn lemma_replay_protection(
    o0: Pallet,
    o1: Pallet,
    r0: registry::Pallet,
    r1: registry::Pallet,
    t0: token::Pallet,
    t1: token::Pallet,
    who: u64,
    device_id: Seq<u8>,
    timestamp: u64,
    co2_captured: u64,
    energy_produced: u64,
    data_hash: Seq<u8>,
    sigs: Seq<(u64, Seq<u8>)>,
    nonce: u64,
    now: u64,
    n_sigs2: int,
)
    requires
        o0.submit_err(r0, Origin::Signed(who), device_id, nonce, sigs.len() as int) is None,
        submit_post(
            o0,
            o1,
            r0,
            r1,
            t0,
            t1,
            device_id,
            timestamp,
            co2_captured,
            energy_produced,
            data_hash,
            sigs,
            nonce,
            now,
        ),
    ensures
        o1.submit_err(r1, Origin::Signed(who), device_id, nonce, n_sigs2) == Some(
            Error::NonceAlreadyUsed,
        ),
{
    assert(o1.is_oracle(who));
    assert(r0.device_of(device_id) matches Some(d) && d.status == DeviceStatus::Active);
    assert(r1.device_of(device_id) matches Some(d) && d.status == DeviceStatus::Active);
    assert(o1.nonce_used(device_id, nonce));
}

/// Quorum gate: a submission carrying fewer signatures than the configured
/// minimum never passes validation; when the caller is an oracle, the device
/// is active and the nonce is fresh, the reported error is exactly the
/// quorum failure. By the submission contract a rejected call stores no
/// report and credits no reward.
pub proof fn lemma_quorum_gate(
    o: Pallet,
    reg: registry::Pallet,
    origin: Origin,
    device_id: Seq<u8>,
    nonce: u64,
    n_sigs: int,
)
    requires
        n_sigs < o.config.min_oracle_nodes,
    ensures
        o.submit_err(reg, origin, device_id, nonce, n_sigs) is Some,
        (origin matches Origin::Signed(who) && o.is_oracle(who) && (reg.device_of(device_id)
            matches Some(d) && d.status == DeviceStatus::Active) && !o.nonce_used(
            device_id,
            nonce,
        )) ==> o.submit_err(reg, origin, device_id, nonce, n_sigs) == Some(
            Error::InsufficientOracleSignatures,
        ),
{
}

} // verus!
