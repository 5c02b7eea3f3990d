//! The upgrade event processor: the composition of parsing, auxiliary
//! resolution, ordering/dedup filtering, version-chain building,
//! persistence and watermark maintenance into one operation.
//!
//! One poll cycle runs the stages `Parsing -> ResolvingAux -> Filtering ->
//! Persisting`; no state is held across cycles except the watermark.
//! A failure at any stage aborts the cycle without touching the watermark,
//! so the caller may re-deliver the whole batch: already-applied ids are
//! skipped and only the unapplied suffix is written.
//!
//! The functions `decode_batch`, `resolve_all`, `skip_applied` and
//! `apply_chain` are the mathematical model of the four stages;
//! `spec_process_events` composes them, and `process_events` is proved to
//! return and mutate exactly as that composition prescribes.

use vstd::prelude::*;
use vstd::string::StringExecFns;

use crate::abi::ContractSchema;
use crate::abi::EventDescription;
use crate::abi::FunctionDescription;
use crate::abi::entry_preimage;
use crate::abi::find_event;
use crate::abi::find_function;
use crate::abi::keccak256_of;
use crate::client::AuxReader;
use crate::client::spec_lookup;
use crate::error::Error;
use crate::error::LogParseError;
use crate::events::Log;
use crate::events::LogView;
use crate::events::is_relevant;
use crate::hash::H160;
use crate::hash::H256;
use crate::proposal::ProposalView;
use crate::proposal::ProtocolUpgradeProposal;
use crate::proposal::spec_parse_upgrade;
use crate::versions::VersionStore;
use crate::versions::VersionView;
use crate::versions::chain_at;
use crate::versions::chain_contains;
use crate::versions::chain_wf;
use crate::versions::spec_apply_upgrade;
use crate::versions::spec_store_write;

verus! {

/// The values of a sequence of decoded proposals.
pub open spec fn proposal_views(s: Seq<ProtocolUpgradeProposal>) -> Seq<ProposalView> {
    s.map_values(|p: ProtocolUpgradeProposal| p@)
}

/// The value of an optional hash.
pub open spec fn opt_hash_view(o: Option<H256>) -> Option<Seq<u8>> {
    match o {
        Some(h) => Some(h@),
        None => None,
    }
}

/// A decoded proposal together with its resolved scheduler vk hash.
#[verifier::ext_equal]
pub struct ResolvedView {
    pub proposal: ProposalView,
    pub scheduler_vk_hash: Option<Seq<u8>>,
}

/// Stage one, parsing: the proposals decoded from the logs relevant to
/// `topic`, in delivery order, or the first schema violation among them.
pub open spec fn decode_batch(logs: Seq<LogView>, topic: Seq<u8>) -> Result<
    Seq<ProposalView>,
    LogParseError,
>
    decreases logs.len(),
{
    if logs.len() == 0 {
        Ok(Seq::empty())
    } else {
        match decode_batch(logs.drop_last(), topic) {
            Err(e) => Err(e),
            Ok(ps) => {
                if !is_relevant(logs.last(), topic) {
                    Ok(ps)
                } else {
                    match spec_parse_upgrade(logs.last().data) {
                        Ok(p) => Ok(ps.push(p)),
                        Err(e) => Err(e),
                    }
                }
            },
        }
    }
}

/// Once a prefix of the batch fails to decode, the whole batch fails the
/// same way.
pub proof fn lemma_decode_err_persists(logs: Seq<LogView>, topic: Seq<u8>, k: int)
    requires
        0 <= k <= logs.len(),
        decode_batch(logs.take(k), topic) is Err,
    ensures
        decode_batch(logs, topic) == decode_batch(logs.take(k), topic),
    decreases logs.len() - k,
{
    if k < logs.len() {
        assert(logs.take(k + 1).drop_last() =~= logs.take(k));
        assert(logs.take(k + 1).last() == logs[k]);
        lemma_decode_err_persists(logs, topic, k + 1);
    } else {
        assert(logs.take(k) =~= logs);
    }
}

/// Stage two, auxiliary resolution: a proposal is resolvable when it
/// either references no verifier contract or its verifier's vk hash was
/// successfully read.
pub open spec fn resolvable(p: ProposalView, aux: Seq<(Seq<u8>, Seq<u8>)>) -> bool {
    match p.verifier_address {
        None => true,
        Some(a) => spec_lookup(aux, a) is Some,
    }
}

/// The scheduler vk hash resolution attaches to a proposal.
pub open spec fn resolved_vk(p: ProposalView, aux: Seq<(Seq<u8>, Seq<u8>)>) -> Option<Seq<u8>> {
    match p.verifier_address {
        None => None,
        Some(a) => spec_lookup(aux, a),
    }
}

/// The resolution stage is a join point: every proposal of the batch must
/// resolve before the pipeline proceeds.
pub open spec fn all_resolvable(ps: Seq<ProposalView>, aux: Seq<(Seq<u8>, Seq<u8>)>) -> bool {
    forall|i: int| 0 <= i < ps.len() ==> resolvable(#[trigger] ps[i], aux)
}

/// The batch with each proposal's resolved vk hash attached.
pub open spec fn resolve_all(ps: Seq<ProposalView>, aux: Seq<(Seq<u8>, Seq<u8>)>) -> Seq<
    ResolvedView,
> {
    Seq::new(
        ps.len(),
        |i: int| ResolvedView { proposal: ps[i], scheduler_vk_hash: resolved_vk(ps[i], aux) },
    )
}

/// Stage three, ordering and dedup: drops the leading run of proposals
/// whose id is at or below the watermark — a skip-while, not a full
/// filter, under the delivery invariant that ids within one batch are
/// non-decreasing.
pub open spec fn skip_applied(rs: Seq<ResolvedView>, watermark: u64) -> Seq<ResolvedView>
    decreases rs.len(),
{
    if rs.len() == 0 {
        rs
    } else if rs[0].proposal.id <= watermark {
        skip_applied(rs.drop_first(), watermark)
    } else {
        rs
    }
}

/// Stage four, chain building and persistence: applies the remaining
/// upgrades in order. For each one the predecessor version is loaded (its
/// absence is the fatal invariant violation), the next version is derived
/// and durably written; a durability failure consumes one pending fault
/// and aborts. Returns the chain and fault budget after the stage, and
/// its result.
pub open spec fn apply_chain(vs: Seq<VersionView>, faults: u64, rs: Seq<ResolvedView>) -> (
    Seq<VersionView>,
    u64,
    Result<(), Error>,
)
    decreases rs.len(),
{
    if rs.len() == 0 {
        (vs, faults, Ok(()))
    } else {
        let head = rs[0];
        if head.proposal.id == 0 || !chain_contains(vs, (head.proposal.id - 1) as u64) {
            (vs, faults, Err(Error::MissingPredecessor))
        } else if faults > 0 {
            (vs, (faults - 1) as u64, Err(Error::StoreWrite))
        } else {
            let prev = chain_at(vs, (head.proposal.id - 1) as u64);
            apply_chain(
                spec_store_write(
                    vs,
                    spec_apply_upgrade(prev, head.proposal, head.scheduler_vk_hash),
                ),
                faults,
                rs.drop_first(),
            )
        }
    }
}

/// What one whole cycle does: the store chain, the store's remaining
/// fault budget, the watermark, and the cycle's result.
pub open spec fn spec_process_events(
    topic: Seq<u8>,
    watermark: u64,
    versions: Seq<VersionView>,
    faults: u64,
    logs: Seq<LogView>,
    aux: Seq<(Seq<u8>, Seq<u8>)>,
) -> (Seq<VersionView>, u64, u64, Result<(), Error>) {
    match decode_batch(logs, topic) {
        Err(e) => (versions, faults, watermark, Err(Error::LogParse(e))),
        Ok(ps) => {
            if !all_resolvable(ps, aux) {
                (versions, faults, watermark, Err(Error::AuxResolution))
            } else {
                let rem = skip_applied(resolve_all(ps, aux), watermark);
                if rem.len() == 0 {
                    (versions, faults, watermark, Ok(()))
                } else {
                    let step = apply_chain(versions, faults, rem);
                    (
                        step.0,
                        step.1,
                        if step.2 is Ok {
                            rem.last().proposal.id
                        } else {
                            watermark
                        },
                        step.2,
                    )
                }
            }
        },
    }
}

/// Splitting a batch at the first id above the watermark: when the first
/// `k` proposals lie at or below the watermark and the one after them (if
/// any) lies above it, the filter keeps exactly the suffix from `k` on.
pub proof fn lemma_skip_at(rs: Seq<ResolvedView>, watermark: u64, k: int)
    requires
        0 <= k <= rs.len(),
        forall|i: int| 0 <= i < k ==> (#[trigger] rs[i]).proposal.id <= watermark,
        k < rs.len() ==> rs[k].proposal.id > watermark,
    ensures
        skip_applied(rs, watermark) == rs.skip(k),
    decreases k,
{
    if k == 0 {
        assert(rs.skip(0) =~= rs);
    } else {
        assert(rs[0].proposal.id <= watermark);
        let tail = rs.drop_first();
        assert(forall|i: int| 0 <= i < k - 1 ==> (#[trigger] tail[i]).proposal.id <= watermark);
        lemma_skip_at(tail, watermark, k - 1);
        assert(tail.skip(k - 1) =~= rs.skip(k));
    }
}

/// Writing a version whose slot exists or is one past the end keeps the
/// chain linear, keeps its first version, and never shrinks it or lowers
/// its maximum id.
pub proof fn lemma_store_write_wf(vs: Seq<VersionView>, v: VersionView)
    requires
        chain_wf(vs),
        vs[0].id < v.id,
        (v.id as int) <= vs[0].id + vs.len(),
    ensures
        ({
            let w = spec_store_write(vs, v);
            &&& chain_wf(w)
            &&& w[0] == vs[0]
            &&& w.len() >= vs.len()
            &&& v.id <= w.last().id
            &&& vs.last().id <= w.last().id
        }),
{
    let w = spec_store_write(vs, v);
    assert(vs.last().id as int == vs[0].id + vs.len() - 1);
    if v.id as int == vs[0].id + vs.len() {
        assert(w == vs.push(v));
        assert(forall|i: int|
            0 <= i < w.len() ==> (#[trigger] w[i].id) as int == w[0].id + i);
    } else {
        assert(w == vs.update(v.id - vs[0].id, v));
        assert(forall|i: int|
            0 <= i < w.len() ==> (#[trigger] w[i].id) as int == w[0].id + i);
        assert(w.last() == vs.last() || w.last() == v);
    }
}

/// The persistence stage keeps the chain linear, keeps its first
/// version, never shrinks it or lowers its maximum id; and when it
/// succeeds on a non-empty remainder, the last applied id lies within
/// the chain.
pub proof fn lemma_apply_chain_preserves_chain(
    vs: Seq<VersionView>,
    faults: u64,
    rs: Seq<ResolvedView>,
)
    requires
        chain_wf(vs),
    ensures
        ({
            let o = apply_chain(vs, faults, rs);
            &&& chain_wf(o.0)
            &&& o.0[0] == vs[0]
            &&& o.0.len() >= vs.len()
            &&& vs.last().id <= o.0.last().id
            &&& (o.2 is Ok && rs.len() > 0 ==> rs.last().proposal.id <= o.0.last().id)
        }),
    decreases rs.len(),
{
    if rs.len() > 0 {
        let head = rs[0];
        if head.proposal.id == 0 || !chain_contains(vs, (head.proposal.id - 1) as u64) {
        } else if faults > 0 {
        } else {
            let prev = chain_at(vs, (head.proposal.id - 1) as u64);
            let v = spec_apply_upgrade(prev, head.proposal, head.scheduler_vk_hash);
            assert(vs.last().id as int == vs[0].id + vs.len() - 1);
            lemma_store_write_wf(vs, v);
            let w = spec_store_write(vs, v);
            lemma_apply_chain_preserves_chain(w, faults, rs.drop_first());
            if rs.len() == 1 {
                assert(apply_chain(w, faults, rs.drop_first()).0 == w);
            } else {
                assert(rs.drop_first().last() == rs.last());
            }
        }
    }
}

/// Ordering preservation: whatever one cycle does — however the
/// delivered batches are chunked — the store chain afterwards is still a
/// linear chain: version ids strictly increasing with no gaps, starting
/// from the same first version, never shorter than before.
pub proof fn lemma_ordering_preservation(
    topic: Seq<u8>,
    watermark: u64,
    versions: Seq<VersionView>,
    faults: u64,
    logs: Seq<LogView>,
    aux: Seq<(Seq<u8>, Seq<u8>)>,
)
    requires
        chain_wf(versions),
    ensures
        ({
            let o = spec_process_events(topic, watermark, versions, faults, logs, aux);
            &&& chain_wf(o.0)
            &&& o.0[0] == versions[0]
            &&& o.0.len() >= versions.len()
            &&& versions.last().id <= o.0.last().id
        }),
{
    match decode_batch(logs, topic) {
        Err(_) => {},
        Ok(ps) => {
            if all_resolvable(ps, aux) {
                let rem = skip_applied(resolve_all(ps, aux), watermark);
                if rem.len() > 0 {
                    lemma_apply_chain_preserves_chain(versions, faults, rem);
                }
            }
        },
    }
}

/// Watermark bound: after any cycle — succeeded or failed at any stage —
/// the watermark is still at or below the store's maximum version id.
pub proof fn lemma_watermark_bound(
    topic: Seq<u8>,
    watermark: u64,
    versions: Seq<VersionView>,
    faults: u64,
    logs: Seq<LogView>,
    aux: Seq<(Seq<u8>, Seq<u8>)>,
)
    requires
        chain_wf(versions),
        watermark <= versions.last().id,
    ensures
        ({
            let o = spec_process_events(topic, watermark, versions, faults, logs, aux);
            o.2 <= o.0.last().id
        }),
{
    lemma_ordering_preservation(topic, watermark, versions, faults, logs, aux);
    match decode_batch(logs, topic) {
        Err(_) => {},
        Ok(ps) => {
            if all_resolvable(ps, aux) {
                let rem = skip_applied(resolve_all(ps, aux), watermark);
                if rem.len() > 0 {
                    lemma_apply_chain_preserves_chain(versions, faults, rem);
                }
            }
        },
    }
}

/// Idempotent replay: a batch whose decoded upgrade ids all lie at or
/// below the watermark — a batch already fully applied, or any prefix of
/// one — leaves the store chain, the fault budget and the watermark
/// unchanged; and when the batch decodes and resolves, the cycle
/// succeeds.
pub proof fn lemma_idempotent_replay(
    topic: Seq<u8>,
    watermark: u64,
    versions: Seq<VersionView>,
    faults: u64,
    logs: Seq<LogView>,
    aux: Seq<(Seq<u8>, Seq<u8>)>,
)
    requires
        match decode_batch(logs, topic) {
            Ok(ps) => forall|i: int| 0 <= i < ps.len() ==> (#[trigger] ps[i]).id <= watermark,
            Err(_) => true,
        },
    ensures
        ({
            let o = spec_process_events(topic, watermark, versions, faults, logs, aux);
            &&& o.0 == versions
            &&& o.1 == faults
            &&& o.2 == watermark
            &&& (match decode_batch(logs, topic) {
                Ok(ps) => all_resolvable(ps, aux),
                Err(_) => false,
            }) ==> o.3 == Ok::<(), Error>(())
        }),
{
    match decode_batch(logs, topic) {
        Err(_) => {},
        Ok(ps) => {
            if all_resolvable(ps, aux) {
                let rv = resolve_all(ps, aux);
                assert(forall|i: int|
                    0 <= i < rv.len() ==> (#[trigger] rv[i]).proposal.id <= watermark);
                lemma_skip_at(rv, watermark, rv.len() as int);
                assert(skip_applied(rv, watermark).len() == 0);
            }
        },
    }
}

/// Fatal on gap: when the watermark agrees with the store's maximum id
/// and the first remaining proposal's id exceeds watermark + 1, the cycle
/// fails with the invariant violation — it neither skips the batch
/// silently nor writes a disconnected version, and the store and
/// watermark are untouched.
pub proof fn lemma_fatal_on_gap(
    topic: Seq<u8>,
    versions: Seq<VersionView>,
    faults: u64,
    logs: Seq<LogView>,
    aux: Seq<(Seq<u8>, Seq<u8>)>,
    ps: Seq<ProposalView>,
)
    requires
        chain_wf(versions),
        decode_batch(logs, topic) == Ok::<Seq<ProposalView>, LogParseError>(ps),
        all_resolvable(ps, aux),
        ({
            let rem = skip_applied(resolve_all(ps, aux), versions.last().id);
            rem.len() > 0 && (rem[0].proposal.id as int) > versions.last().id + 1
        }),
    ensures
        ({
            let o = spec_process_events(topic, versions.last().id, versions, faults, logs, aux);
            &&& o.3 == Err::<(), Error>(Error::MissingPredecessor)
            &&& o.0 == versions
            &&& o.1 == faults
            &&& o.2 == versions.last().id
        }),
{
    let watermark = versions.last().id;
    let rem = skip_applied(resolve_all(ps, aux), watermark);
    let head = rem[0];
    assert(versions[0].id <= versions.last().id) by {
        assert(versions.last().id as int == versions[0].id + versions.len() - 1);
    }
    assert(!chain_contains(versions, (head.proposal.id - 1) as u64));
    assert(apply_chain(versions, faults, rem) == (
        versions,
        faults,
        Err::<(), Error>(Error::MissingPredecessor),
    ));
}

/// Restart safety: a processor freshly seeded from a store whose chain
/// ends at id N, handed a batch of consecutive ascending ids that starts
/// at or below N + 1 (and after the store's first id) and ends at N + 2,
/// writes exactly the two versions N + 1 and N + 2 on top of the
/// otherwise unchanged chain, succeeds, and advances the watermark to
/// N + 2.
pub proof fn lemma_restart_safety(
    topic: Seq<u8>,
    versions: Seq<VersionView>,
    logs: Seq<LogView>,
    aux: Seq<(Seq<u8>, Seq<u8>)>,
    ps: Seq<ProposalView>,
)
    requires
        chain_wf(versions),
        decode_batch(logs, topic) == Ok::<Seq<ProposalView>, LogParseError>(ps),
        all_resolvable(ps, aux),
        forall|i: int| 0 <= i < ps.len() ==> (#[trigger] ps[i].id) as int == ps[0].id + i,
        ps.len() > 0,
        (ps[0].id as int) >= versions[0].id + 1,
        (ps[0].id as int) <= versions.last().id + 1,
        (ps.last().id as int) == versions.last().id + 2,
    ensures
        ({
            let o = spec_process_events(topic, versions.last().id, versions, 0, logs, aux);
            let k = ps.len() - 2;
            let v1 = spec_apply_upgrade(versions.last(), ps[k], resolved_vk(ps[k], aux));
            let v2 = spec_apply_upgrade(v1, ps[k + 1], resolved_vk(ps[k + 1], aux));
            &&& o.3 == Ok::<(), Error>(())
            &&& o.0 == versions.push(v1).push(v2)
            &&& o.1 == 0
            &&& (o.2 as int) == versions.last().id + 2
        }),
{
    let watermark = versions.last().id;
    let first = versions[0].id;
    let len = versions.len() as int;
    assert(watermark as int == first + len - 1);
    let rv = resolve_all(ps, aux);
    let k = ps.len() - 2;
    assert((ps[k].id as int) == watermark + 1 && (ps[k + 1].id as int) == watermark + 2) by {
        assert((ps.last().id as int) == ps[0].id + ps.len() - 1);
    }
    assert(forall|i: int| 0 <= i < k ==> (#[trigger] rv[i]).proposal.id <= watermark);
    lemma_skip_at(rv, watermark, k);
    let rem = rv.skip(k);
    assert(rem.len() == 2);

    let v1 = spec_apply_upgrade(versions.last(), ps[k], resolved_vk(ps[k], aux));
    let chain1 = versions.push(v1);
    assert(rem[0] == rv[k] && rem[0].proposal == ps[k]);
    assert(chain_contains(versions, (ps[k].id - 1) as u64));
    assert(chain_at(versions, (ps[k].id - 1) as u64) == versions.last()) by {
        assert(versions[len - 1] == versions.last());
    }
    assert(spec_store_write(versions, v1) == chain1);

    let v2 = spec_apply_upgrade(v1, ps[k + 1], resolved_vk(ps[k + 1], aux));
    let chain2 = chain1.push(v2);
    assert(rem.drop_first() =~= rv.skip(k + 1));
    assert(rv.skip(k + 1)[0] == rv[k + 1] && rv[k + 1].proposal == ps[k + 1]);
    assert(chain_contains(chain1, (ps[k + 1].id - 1) as u64)) by {
        assert(chain1.last() == v1);
    }
    assert(chain_at(chain1, (ps[k + 1].id - 1) as u64) == v1) by {
        assert(chain1[len] == v1);
    }
    assert(spec_store_write(chain1, v2) == chain2);

    assert(rv.skip(k + 1).drop_first() =~= rv.skip(k + 2));
    assert(rv.skip(k + 2).len() == 0);
    assert(apply_chain(chain2, 0, rv.skip(k + 2)) == (chain2, 0u64, Ok::<(), Error>(())));
    assert(apply_chain(chain1, 0, rv.skip(k + 1)) == (chain2, 0u64, Ok::<(), Error>(())));
    assert(apply_chain(versions, 0, rem) == (chain2, 0u64, Ok::<(), Error>(())));
    assert(rem.last() == rv[k + 1]);
}

/// The topic of the historical `ProposeTransparentUpgrade` event.
pub open spec fn upgrade_topic() -> Seq<u8> {
    keccak256_of(
        entry_preimage(
            "ProposeTransparentUpgrade"@,
            seq![
                "((address,uint8,bool,bytes4[])[],address,bytes)"@,
                "uint256"@,
                "bytes32"@,
            ],
        ),
    )
}

/// The full selector hash of the historical `executeUpgrade` function.
pub open spec fn execute_upgrade_hash() -> Seq<u8> {
    keccak256_of(
        entry_preimage(
            "executeUpgrade"@,
            seq!["((address,uint8,bool,bytes4[])[],address,bytes)"@, "bytes32"@],
        ),
    )
}

/// The historical interface of the settlement-layer contract, embedded as
/// an immutable schema value: the upgrade-proposal and priority-request
/// events, and the upgrade-execution function.
pub fn old_zksync_contract() -> (c: ContractSchema)
    ensures
        c.events@.len() == 2,
        c.events@[0].name@ == "ProposeTransparentUpgrade"@,
        c.events@[0].param_types@.map_values(|p: String| p@) == seq![
            "((address,uint8,bool,bytes4[])[],address,bytes)"@,
            "uint256"@,
            "bytes32"@,
        ],
        c.events@[1].name@ == "NewPriorityRequest"@,
        c.events@[1].param_types@.map_values(|p: String| p@) == seq![
            "uint256"@,
            "bytes32"@,
            "uint64"@,
            "(uint256,uint256,uint256,uint256,uint256,uint256,uint256,uint256,uint256,uint256,uint256[4],bytes,bytes,uint256[],bytes,bytes)"@,
            "bytes[]"@,
        ],
        c.functions@.len() == 1,
        c.functions@[0].name@ == "executeUpgrade"@,
        c.functions@[0].param_types@.map_values(|p: String| p@) == seq![
            "((address,uint8,bool,bytes4[])[],address,bytes)"@,
            "bytes32"@,
        ],
{
    let mut propose_params: Vec<String> = Vec::new();
    propose_params.push(String::from_str("((address,uint8,bool,bytes4[])[],address,bytes)"));
    propose_params.push(String::from_str("uint256"));
    propose_params.push(String::from_str("bytes32"));
    let propose = EventDescription {
        name: String::from_str("ProposeTransparentUpgrade"),
        param_types: propose_params,
    };

    let mut priority_params: Vec<String> = Vec::new();
    priority_params.push(String::from_str("uint256"));
    priority_params.push(String::from_str("bytes32"));
    priority_params.push(String::from_str("uint64"));
    priority_params.push(
        String::from_str(
            "(uint256,uint256,uint256,uint256,uint256,uint256,uint256,uint256,uint256,uint256,uint256[4],bytes,bytes,uint256[],bytes,bytes)",
        ),
    );
    priority_params.push(String::from_str("bytes[]"));
    let priority = EventDescription {
        name: String::from_str("NewPriorityRequest"),
        param_types: priority_params,
    };

    let mut execute_params: Vec<String> = Vec::new();
    execute_params.push(String::from_str("((address,uint8,bool,bytes4[])[],address,bytes)"));
    execute_params.push(String::from_str("bytes32"));
    let execute = FunctionDescription {
        name: String::from_str("executeUpgrade"),
        param_types: execute_params,
    };

    let mut events: Vec<EventDescription> = Vec::new();
    events.push(propose);
    events.push(priority);
    let mut functions: Vec<FunctionDescription> = Vec::new();
    functions.push(execute);
    let c = ContractSchema { events, functions };
    proof {
        assert(c.events@[0].param_types@.map_values(|p: String| p@) =~= seq![
            "((address,uint8,bool,bytes4[])[],address,bytes)"@,
            "uint256"@,
            "bytes32"@,
        ]);
        assert(c.events@[1].param_types@.map_values(|p: String| p@) =~= seq![
            "uint256"@,
            "bytes32"@,
            "uint64"@,
            "(uint256,uint256,uint256,uint256,uint256,uint256,uint256,uint256,uint256,uint256,uint256[4],bytes,bytes,uint256[],bytes,bytes)"@,
            "bytes[]"@,
        ]);
        assert(c.functions@[0].param_types@.map_values(|p: String| p@) =~= seq![
            "((address,uint8,bool,bytes4[])[],address,bytes)"@,
            "bytes32"@,
        ]);
    }
    c
}

/// Saves new protocol upgrade proposals to the version store.
///
/// Identity: one topic, one watermark. The topic and the short selector
/// are computed once at construction from the embedded schema and never
/// change afterwards.
#[derive(Clone, Copy, Debug, PartialEq, Eq)]
pub struct UpgradesEventProcessor {
    /// The settlement-layer diamond proxy this processor watches.
    pub diamond_proxy_address: H160,
    /// The watermark: the highest version id durably applied. A cache of
    /// store state, never a source of truth.
    pub last_seen_version_id: u64,
    /// The topic routed to this processor.
    pub upgrade_proposal_signature: H256,
    /// The short selector of the upgrade-execution function.
    pub execute_upgrade_short_signature: [u8; 4],
}

impl UpgradesEventProcessor {
    /// The processor/store invariant: the store is a well-formed linear
    /// chain and the watermark never exceeds the store's maximum id.
    pub open spec fn inv(&self, versions: Seq<VersionView>) -> bool {
        &&& chain_wf(versions)
        &&& self.last_seen_version_id <= versions.last().id
    }

    /// A processor with the given watermark, its topic and selector
    /// computed from the embedded historical schema.
    pub fn new(diamond_proxy_address: H160, last_seen_version_id: u64) -> (p:
        UpgradesEventProcessor)
        ensures
            p.diamond_proxy_address == diamond_proxy_address,
            p.last_seen_version_id == last_seen_version_id,
            p.upgrade_proposal_signature@ == upgrade_topic(),
            p.execute_upgrade_short_signature@ == execute_upgrade_hash().take(4),
    {
        let schema = old_zksync_contract();
        let upgrade_proposal_signature = match schema.event("ProposeTransparentUpgrade") {
            Some(e) => e.signature(),
            None => {
                proof {
                    assert(find_event(schema.events@, "ProposeTransparentUpgrade"@) is Some);
                }
                H256::zero()
            },
        };
        let execute_upgrade_short_signature = match schema.function("executeUpgrade") {
            Some(f) => f.short_signature(),
            None => {
                proof {
                    assert(find_function(schema.functions@, "executeUpgrade"@) is Some);
                }
                [0u8, 0u8, 0u8, 0u8]
            },
        };
        UpgradesEventProcessor {
            diamond_proxy_address,
            last_seen_version_id,
            upgrade_proposal_signature,
            execute_upgrade_short_signature,
        }
    }

    /// Bootstraps a processor against a store: the watermark is seeded
    /// from the store's true maximum applied id, never carried over from
    /// any external checkpoint.
    pub fn from_store(diamond_proxy_address: H160, store: &VersionStore) -> (p:
        UpgradesEventProcessor)
        requires
            store.wf(),
        ensures
            p.diamond_proxy_address == diamond_proxy_address,
            p.last_seen_version_id == store.max_id(),
            p.inv(store.contents()),
            p.upgrade_proposal_signature@ == upgrade_topic(),
            p.execute_upgrade_short_signature@ == execute_upgrade_hash().take(4),
    {
        Self::new(diamond_proxy_address, store.max_applied_version_id())
    }

    /// The topic the dispatcher routes to this processor.
    pub fn relevant_topic(&self) -> (r: H256)
        ensures
            r@ == self.upgrade_proposal_signature@,
    {
        self.upgrade_proposal_signature
    }

    /// One poll cycle: decodes the batch's relevant logs, resolves the
    /// auxiliary reads, skips already-applied ids, extends the version
    /// chain, and advances the watermark once the last version of the
    /// batch is durable.
    ///
    /// The store, the fault budget, the watermark and the result are
    /// exactly what `spec_process_events` prescribes; and the
    /// processor/store invariant — in particular watermark <= store
    /// maximum — holds again on return, also after every failure.
    pub fn process_events(
        &mut self,
        storage: &mut VersionStore,
        client: &AuxReader,
        events: &Vec<Log>,
    ) -> (r: Result<(), Error>)
        requires
            old(self).inv(old(storage).contents()),
        ensures
            final(self).inv(final(storage).contents()),
            final(self).diamond_proxy_address == old(self).diamond_proxy_address,
            final(self).upgrade_proposal_signature == old(self).upgrade_proposal_signature,
            final(self).execute_upgrade_short_signature == old(
                self,
            ).execute_upgrade_short_signature,
            final(storage).first_id() == old(storage).first_id(),
            final(storage).contents().len() >= old(storage).contents().len(),
            ({
                let o = spec_process_events(
                    old(self).upgrade_proposal_signature@,
                    old(self).last_seen_version_id,
                    old(storage).contents(),
                    old(storage).pending_write_failures,
                    events@.map_values(|l: Log| l@),
                    client.table(),
                );
                &&& final(storage).contents() == o.0
                &&& final(storage).pending_write_failures == o.1
                &&& final(self).last_seen_version_id == o.2
                &&& r == o.3
            }),
    {
        let topic = self.upgrade_proposal_signature;
        let wm = self.last_seen_version_id;
        let ghost lv = events@.map_values(|l: Log| l@);
        let ghost aux = client.table();

        // Parsing: decode every relevant log; the first violation aborts.
        let n = events.len();
        let mut proposals: Vec<ProtocolUpgradeProposal> = Vec::new();
        let mut i: usize = 0;
        proof {
            assert(lv.take(0) =~= Seq::<LogView>::empty());
            assert(proposal_views(proposals@) =~= Seq::<ProposalView>::empty());
        }
        while i < n
            invariant
                i <= n,
                n == events@.len(),
                lv == events@.map_values(|l: Log| l@),
                *self == *old(self),
                *storage == *old(storage),
                old(self).inv(old(storage).contents()),
                topic == old(self).upgrade_proposal_signature,
                decode_batch(lv.take(i as int), topic@) == Ok::<Seq<ProposalView>, LogParseError>(
                    proposal_views(proposals@),
                ),
            decreases n - i,
        {
            let log = &events[i];
            let relevant = log.topics.len() > 0 && log.topics[0].same(&topic);
            proof {
                assert(lv[i as int] == events@[i as int]@);
                assert(lv.take(i + 1).drop_last() =~= lv.take(i as int));
                assert(lv.take(i + 1).last() == lv[i as int]);
            }
            if relevant {
                proof {
                    assert(lv[i as int].topics[0] == log.topics@.map_values(|t: H256| t@)[0]);
                    assert(is_relevant(lv[i as int], topic@));
                }
                let ghost ps_pre = proposal_views(proposals@);
                match ProtocolUpgradeProposal::try_from_log(log) {
                    Ok(p) => {
                        proposals.push(p);
                        proof {
                            assert(proposal_views(proposals@) =~= ps_pre.push(p@));
                        }
                    },
                    Err(e) => {
                        proof {
                            assert(decode_batch(lv.take(i + 1), topic@) == Err::<
                                Seq<ProposalView>,
                                LogParseError,
                            >(e));
                            lemma_decode_err_persists(lv, topic@, i + 1);
                        }
                        return Err(Error::LogParse(e));
                    },
                }
            } else {
                proof {
                    assert(!is_relevant(lv[i as int], topic@));
                }
            }
            i += 1;
        }
        proof {
            assert(lv.take(n as int) =~= lv);
        }

        // Resolving aux: a join point; every read of the batch must have
        // succeeded before the pipeline proceeds.
        let ghost ps = proposal_views(proposals@);
        let m = proposals.len();
        let mut vk_hashes: Vec<Option<H256>> = Vec::new();
        i = 0;
        while i < m
            invariant
                i <= m,
                m == proposals@.len(),
                ps == proposal_views(proposals@),
                aux == client.table(),
                lv == events@.map_values(|l: Log| l@),
                *self == *old(self),
                *storage == *old(storage),
                old(self).inv(old(storage).contents()),
                decode_batch(lv, old(self).upgrade_proposal_signature@) == Ok::<
                    Seq<ProposalView>,
                    LogParseError,
                >(ps),
                vk_hashes@.len() == i,
                forall|j: int| 0 <= j < i ==> resolvable(#[trigger] ps[j], aux),
                forall|j: int|
                    0 <= j < i ==> opt_hash_view(#[trigger] vk_hashes@[j]) == resolved_vk(
                        ps[j],
                        aux,
                    ),
            decreases m - i,
        {
            let vk: Option<H256> = match proposals[i].verifier_address {
                Some(address) => {
                    match client.scheduler_vk_hash(&address) {
                        Ok(h) => Some(h),
                        Err(_) => {
                            proof {
                                assert(ps[i as int].verifier_address == Some(address@));
                                assert(!resolvable(ps[i as int], aux));
                                assert(!all_resolvable(ps, aux));
                            }
                            return Err(Error::AuxResolution);
                        },
                    }
                },
                None => None,
            };
            proof {
                assert(opt_hash_view(vk) == resolved_vk(ps[i as int], aux));
            }
            vk_hashes.push(vk);
            i += 1;
        }
        proof {
            assert(all_resolvable(ps, aux));
        }

        // Filtering: skip the leading run of already-applied ids.
        let ghost rv = resolve_all(ps, aux);
        proof {
            assert(rv.skip(0) =~= rv);
        }
        let mut start: usize = 0;
        while start < m && proposals[start].id <= wm
            invariant
                start <= m,
                m == proposals@.len(),
                ps == proposal_views(proposals@),
                rv == resolve_all(ps, aux),
                wm == old(self).last_seen_version_id,
                skip_applied(rv, wm) == skip_applied(rv.skip(start as int), wm),
            decreases m - start,
        {
            proof {
                assert(rv.skip(start as int)[0] == rv[start as int]);
                assert(rv.skip(start as int).drop_first() =~= rv.skip(start + 1));
            }
            start += 1;
        }
        if start == m {
            proof {
                assert(rv.skip(m as int).len() == 0);
                assert(skip_applied(rv, wm).len() == 0);
            }
            return Ok(());
        }
        let ghost rem = skip_applied(rv, wm);
        proof {
            assert(rv.skip(start as int)[0] == rv[start as int]);
            assert(rv[start as int].proposal == ps[start as int]);
            assert(rem == rv.skip(start as int));
            assert(rem.len() > 0);
        }

        // Persisting: extend the chain in order; advance the watermark
        // only once the last version of the batch is durable.
        let last_id = proposals[m - 1].id;
        let ghost vs0 = storage.contents();
        let ghost f0 = storage.pending_write_failures;
        i = start;
        while i < m
            invariant
                start <= i <= m,
                start < m,
                m == proposals@.len(),
                ps == proposal_views(proposals@),
                rv == resolve_all(ps, aux),
                aux == client.table(),
                lv == events@.map_values(|l: Log| l@),
                *self == *old(self),
                wm == old(self).last_seen_version_id,
                decode_batch(lv, old(self).upgrade_proposal_signature@) == Ok::<
                    Seq<ProposalView>,
                    LogParseError,
                >(ps),
                all_resolvable(ps, aux),
                rem == skip_applied(rv, wm),
                rem == rv.skip(start as int),
                last_id == ps[m - 1].id,
                vk_hashes@.len() == m,
                forall|j: int|
                    0 <= j < m ==> opt_hash_view(#[trigger] vk_hashes@[j]) == resolved_vk(
                        ps[j],
                        aux,
                    ),
                storage.wf(),
                vs0 == old(storage).contents(),
                f0 == old(storage).pending_write_failures,
                chain_wf(vs0),
                old(self).last_seen_version_id <= vs0.last().id,
                storage.first_id() == old(storage).first_id(),
                storage.contents().len() >= vs0.len(),
                apply_chain(vs0, f0, rem) == apply_chain(
                    storage.contents(),
                    storage.pending_write_failures,
                    rv.skip(i as int),
                ),
                i > start ==> rv[i - 1].proposal.id <= storage.max_id(),
            decreases m - i,
        {
            let id = proposals[i].id;
            let ghost cur = storage.contents();
            let ghost fcur = storage.pending_write_failures;
            proof {
                assert(rv.skip(i as int)[0] == rv[i as int]);
                assert(rv[i as int].proposal == ps[i as int]);
                assert(rv.skip(i as int).drop_first() =~= rv.skip(i + 1));
                assert(cur.last().id as int == cur[0].id + cur.len() - 1);
                assert(vs0.last().id as int == vs0[0].id + vs0.len() - 1);
            }
            let prev = match storage.load_previous_version(id) {
                Some(v) => v,
                None => {
                    proof {
                        assert(apply_chain(cur, fcur, rv.skip(i as int)) == (
                            cur,
                            fcur,
                            Err::<(), Error>(Error::MissingPredecessor),
                        ));
                    }
                    return Err(Error::MissingPredecessor);
                },
            };
            let vk = vk_hashes[i];
            let new_version = prev.apply_upgrade(&proposals[i], vk);
            match storage.save_version(new_version) {
                Ok(()) => {},
                Err(e) => {
                    proof {
                        assert(apply_chain(cur, fcur, rv.skip(i as int)) == (
                            cur,
                            (fcur - 1) as u64,
                            Err::<(), Error>(Error::StoreWrite),
                        ));
                    }
                    return Err(e);
                },
            }
            proof {
                assert(opt_hash_view(vk) == rv[i as int].scheduler_vk_hash);
                assert(prev@ == chain_at(cur, (id - 1) as u64));
                assert(new_version@ == spec_apply_upgrade(
                    chain_at(cur, (id - 1) as u64),
                    rv[i as int].proposal,
                    rv[i as int].scheduler_vk_hash,
                ));
                assert(storage.contents() == spec_store_write(cur, new_version@));
                assert(apply_chain(cur, fcur, rv.skip(i as int)) == apply_chain(
                    storage.contents(),
                    storage.pending_write_failures,
                    rv.skip(i + 1),
                ));
                assert(storage.max_id() as int == storage.first_id() + storage.contents().len()
                    - 1);
                assert(id <= storage.max_id());
            }
            i += 1;
        }
        proof {
            assert(rv.skip(m as int).len() == 0);
            assert(apply_chain(vs0, f0, rem) == (
                storage.contents(),
                storage.pending_write_failures,
                Ok::<(), Error>(()),
            ));
            assert(rem.last() == rv[m - 1]);
            assert(rem.last().proposal.id == last_id);
            assert(last_id <= storage.max_id());
            assert(storage.max_id() as int == storage.first_id() + storage.contents().len() - 1);
        }
        self.last_seen_version_id = last_id;
        Ok(())
    }
}

} // verus!
