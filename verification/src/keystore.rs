//! The key store: where prover keys live on disk.
//!
//! The store manages two kinds of artifacts: small keys (verification
//! keys, finalization hints) under a base directory, and large setup keys
//! under a setup-data directory. This module holds the store's state and
//! the derivation of every artifact's file path; reading and writing the
//! files themselves is input/output and lives outside the verified
//! library, against the paths computed here.

use vstd::prelude::*;
use vstd::string::StringExecFns;

use crate::hex::push_char;

verus! {

/// The recursion-layer storage id of the scheduler circuit.
pub const SCHEDULER_CIRCUIT_ID: u8 = 1;

/// The recursion-layer storage id of the node-layer circuit.
pub const NODE_LAYER_CIRCUIT_ID: u8 = 2;

/// The recursion-layer storage id of the recursion-tip circuit.
pub const RECURSION_TIP_CIRCUIT_ID: u8 = 255;

/// The proving round an artifact belongs to.
#[derive(Clone, Copy, Debug, PartialEq, Eq, Structural)]
pub enum AggregationRound {
    BasicCircuits,
    LeafAggregation,
    NodeAggregation,
    RecursionTip,
    Scheduler,
}

/// Which circuit and round a stored artifact is for.
#[derive(Clone, Copy, Debug, PartialEq, Eq, Structural)]
pub struct ProverServiceDataKey {
    pub circuit_id: u8,
    pub round: AggregationRound,
}

/// The kinds of artifacts the key store manages.
#[derive(Clone, Copy, Debug, PartialEq, Eq, Structural)]
pub enum ProverServiceDataType {
    VerificationKey,
    SetupData,
    FinalizationHints,
    SnarkVerificationKey,
}

/// The decimal digit character for a value below ten.
pub open spec fn dec_digit(d: nat) -> char {
    (48 + d) as char
}

/// The decimal rendering of a number, most significant digit first.
pub open spec fn dec_digits(n: nat) -> Seq<char>
    decreases n,
{
    if n < 10 {
        seq![dec_digit(n)]
    } else {
        dec_digits(n / 10).push(dec_digit(n % 10))
    }
}

/// Renders a byte-sized number in decimal.
pub fn u8_to_decimal(n: u8) -> (r: String)
    ensures
        r@ == dec_digits(n as nat),
{
    let mut s = String::new();
    if n < 10 {
        push_digit(&mut s, n);
        proof {
            assert(s@ =~= dec_digits(n as nat));
        }
    } else {
        let q = n / 10;
        let d0 = n % 10;
        if q < 10 {
            push_digit(&mut s, q);
            push_digit(&mut s, d0);
            proof {
                assert(dec_digits(q as nat) =~= seq![dec_digit(q as nat)]);
                assert(dec_digits(n as nat) =~= dec_digits(q as nat).push(dec_digit(d0 as nat)));
                assert(s@ =~= dec_digits(n as nat));
            }
        } else {
            let d2 = q / 10;
            let d1 = q % 10;
            push_digit(&mut s, d2);
            push_digit(&mut s, d1);
            push_digit(&mut s, d0);
            proof {
                assert(d2 < 10);
                assert(dec_digits(d2 as nat) =~= seq![dec_digit(d2 as nat)]);
                assert(dec_digits(q as nat) =~= dec_digits(d2 as nat).push(dec_digit(d1 as nat)));
                assert(dec_digits(n as nat) =~= dec_digits(q as nat).push(dec_digit(d0 as nat)));
                assert(s@ =~= dec_digits(n as nat));
            }
        }
    }
    s
}

/// Renders a number in decimal.
pub fn u64_to_decimal(n: u64) -> (r: String)
    ensures
        r@ == dec_digits(n as nat),
    decreases n,
{
    if n < 10 {
        let mut s = String::new();
        push_digit(&mut s, n as u8);
        proof {
            assert(s@ =~= dec_digits(n as nat));
        }
        s
    } else {
        let mut s = u64_to_decimal(n / 10);
        push_digit(&mut s, (n % 10) as u8);
        s
    }
}

/// Appends one decimal digit character.
fn push_digit(s: &mut String, d: u8)
    requires
        d < 10,
    ensures
        final(s)@ == old(s)@.push(dec_digit(d as nat)),
{
    let c = (48 + d) as char;
    proof {
        assert(c == dec_digit(d as nat));
    }
    push_char(s, c);
}

impl ProverServiceDataKey {
    /// The artifact name the key names files with.
    pub open spec fn spec_name(&self) -> Seq<char> {
        match self.round {
            AggregationRound::BasicCircuits => "basic_"@ + dec_digits(self.circuit_id as nat),
            AggregationRound::LeafAggregation => "leaf_"@ + dec_digits(self.circuit_id as nat),
            AggregationRound::NodeAggregation => "node"@,
            AggregationRound::RecursionTip => "recursion_tip"@,
            AggregationRound::Scheduler => "scheduler"@,
        }
    }

    /// A key for a circuit in a given round.
    pub fn new(circuit_id: u8, round: AggregationRound) -> (r: ProverServiceDataKey)
        ensures
            r.circuit_id == circuit_id,
            r.round == round,
    {
        ProverServiceDataKey { circuit_id, round }
    }

    /// A key for a recursion-layer circuit, whose round follows from its
    /// storage id: scheduler, node layer and recursion tip have fixed
    /// ids, everything else is a leaf.
    pub fn new_recursive(circuit_id: u8) -> (r: ProverServiceDataKey)
        ensures
            r.circuit_id == circuit_id,
            r.round == (if circuit_id == SCHEDULER_CIRCUIT_ID {
                AggregationRound::Scheduler
            } else if circuit_id == NODE_LAYER_CIRCUIT_ID {
                AggregationRound::NodeAggregation
            } else if circuit_id == RECURSION_TIP_CIRCUIT_ID {
                AggregationRound::RecursionTip
            } else {
                AggregationRound::LeafAggregation
            }),
    {
        let round = if circuit_id == SCHEDULER_CIRCUIT_ID {
            AggregationRound::Scheduler
        } else if circuit_id == NODE_LAYER_CIRCUIT_ID {
            AggregationRound::NodeAggregation
        } else if circuit_id == RECURSION_TIP_CIRCUIT_ID {
            AggregationRound::RecursionTip
        } else {
            AggregationRound::LeafAggregation
        };
        ProverServiceDataKey { circuit_id, round }
    }

    /// The key under which the snark-wrapper artifacts are stored.
    pub fn snark() -> (r: ProverServiceDataKey)
        ensures
            r.circuit_id == SCHEDULER_CIRCUIT_ID,
            r.round == AggregationRound::Scheduler,
    {
        ProverServiceDataKey { circuit_id: SCHEDULER_CIRCUIT_ID, round: AggregationRound::Scheduler }
    }

    /// The artifact name for this key.
    pub fn name(&self) -> (r: String)
        ensures
            r@ == self.spec_name(),
    {
        match self.round {
            AggregationRound::BasicCircuits => {
                let s = String::from_str("basic_");
                s.concat(u8_to_decimal(self.circuit_id).as_str())
            },
            AggregationRound::LeafAggregation => {
                let s = String::from_str("leaf_");
                s.concat(u8_to_decimal(self.circuit_id).as_str())
            },
            AggregationRound::NodeAggregation => String::from_str("node"),
            AggregationRound::RecursionTip => String::from_str("recursion_tip"),
            AggregationRound::Scheduler => String::from_str("scheduler"),
        }
    }
}

/// The file path of one artifact: its directory, a type-specific prefix,
/// the key's name, and a type-specific suffix.
pub open spec fn spec_file_path(
    basedir: Seq<char>,
    setup_data_path: Seq<char>,
    key: ProverServiceDataKey,
    data_type: ProverServiceDataType,
) -> Seq<char> {
    match data_type {
        ProverServiceDataType::VerificationKey => basedir + "/verification_"@ + key.spec_name()
            + "_key.json"@,
        ProverServiceDataType::SetupData => setup_data_path + "/setup_"@ + key.spec_name()
            + "_data.bin"@,
        ProverServiceDataType::FinalizationHints => basedir + "/finalization_hints_"@
            + key.spec_name() + ".bin"@,
        ProverServiceDataType::SnarkVerificationKey => basedir + "/snark_verification_"@
            + key.spec_name() + "_key.json"@,
    }
}

/// The key store: the base directory for the small keys and the
/// directory for the large setup keys.
#[derive(Clone, Debug)]
pub struct Keystore {
    /// Directory of the small keys.
    pub basedir: String,
    /// Directory of the large setup keys.
    pub setup_data_path: String,
}

impl Keystore {
    /// A store with both kinds of keys under one directory.
    pub fn new(basedir: String) -> (r: Keystore)
        ensures
            r.basedir@ == basedir@,
            r.setup_data_path@ == basedir@,
    {
        let setup_data_path = basedir.clone();
        Keystore { basedir, setup_data_path }
    }

    /// Overrides the setup-key directory, if one is given.
    pub fn with_setup_path(self, setup_data_path: Option<String>) -> (r: Keystore)
        ensures
            r.basedir@ == self.basedir@,
            r.setup_data_path@ == (match setup_data_path {
                Some(p) => p@,
                None => self.setup_data_path@,
            }),
    {
        let mut this = self;
        if let Some(p) = setup_data_path {
            this.setup_data_path = p;
        }
        this
    }

    /// The directory of the small keys.
    pub fn get_base_path(&self) -> (r: &String)
        ensures
            r@ == self.basedir@,
    {
        &self.basedir
    }

    /// The file path of one artifact. The input/output layer reads and
    /// writes key files at exactly these paths.
    pub fn get_file_path(
        &self,
        key: ProverServiceDataKey,
        data_type: ProverServiceDataType,
    ) -> (r: String)
        ensures
            r@ == spec_file_path(self.basedir@, self.setup_data_path@, key, data_type),
    {
        let name = key.name();
        let r = match data_type {
            ProverServiceDataType::VerificationKey => self.basedir.clone().concat(
                "/verification_",
            ).concat(name.as_str()).concat("_key.json"),
            ProverServiceDataType::SetupData => self.setup_data_path.clone().concat(
                "/setup_",
            ).concat(name.as_str()).concat("_data.bin"),
            ProverServiceDataType::FinalizationHints => self.basedir.clone().concat(
                "/finalization_hints_",
            ).concat(name.as_str()).concat(".bin"),
            ProverServiceDataType::SnarkVerificationKey => self.basedir.clone().concat(
                "/snark_verification_",
            ).concat(name.as_str()).concat("_key.json"),
        };
        proof {
            assert(r@ =~= spec_file_path(self.basedir@, self.setup_data_path@, key, data_type));
        }
        r
    }

    /// The path of the base-layer verification key of a circuit.
    pub fn base_layer_vk_path(&self, circuit_type: u8) -> (r: String)
        ensures
            r@ == spec_file_path(
                self.basedir@,
                self.setup_data_path@,
                ProverServiceDataKey { circuit_id: circuit_type, round: AggregationRound::BasicCircuits },
                ProverServiceDataType::VerificationKey,
            ),
    {
        self.get_file_path(
            ProverServiceDataKey::new(circuit_type, AggregationRound::BasicCircuits),
            ProverServiceDataType::VerificationKey,
        )
    }

    /// The path of the recursion-layer verification key of a circuit.
    pub fn recursive_layer_vk_path(&self, circuit_type: u8) -> (r: String)
        ensures
            r@ == spec_file_path(
                self.basedir@,
                self.setup_data_path@,
                ProverServiceDataKey::new_recursive_spec(circuit_type),
                ProverServiceDataType::VerificationKey,
            ),
    {
        self.get_file_path(
            ProverServiceDataKey::new_recursive(circuit_type),
            ProverServiceDataType::VerificationKey,
        )
    }

    /// The path of the finalization hints of a key. The node-aggregation
    /// round stores one hints file for all circuit types, so keys of that
    /// round collapse to the node-layer circuit id.
    pub fn finalization_hints_path(&self, key: ProverServiceDataKey) -> (r: String)
        ensures
            r@ == spec_file_path(
                self.basedir@,
                self.setup_data_path@,
                (if key.round == AggregationRound::NodeAggregation {
                    ProverServiceDataKey {
                        circuit_id: NODE_LAYER_CIRCUIT_ID,
                        round: AggregationRound::NodeAggregation,
                    }
                } else {
                    key
                }),
                ProverServiceDataType::FinalizationHints,
            ),
    {
        let mut key = key;
        if key.round == AggregationRound::NodeAggregation {
            key.circuit_id = NODE_LAYER_CIRCUIT_ID;
        }
        self.get_file_path(key, ProverServiceDataType::FinalizationHints)
    }

    /// The path of the snark-wrapper verification key.
    pub fn snark_vk_path(&self) -> (r: String)
        ensures
            r@ == spec_file_path(
                self.basedir@,
                self.setup_data_path@,
                ProverServiceDataKey { circuit_id: SCHEDULER_CIRCUIT_ID, round: AggregationRound::Scheduler },
                ProverServiceDataType::SnarkVerificationKey,
            ),
    {
        self.get_file_path(ProverServiceDataKey::snark(), ProverServiceDataType::SnarkVerificationKey)
    }

    /// The path of the commitments file.
    pub fn commitments_path(&self) -> (r: String)
        ensures
            r@ == self.basedir@ + "/commitments.json"@,
    {
        let r = self.basedir.clone().concat("/commitments.json");
        r
    }
}

impl ProverServiceDataKey {
    /// The round `new_recursive` assigns to a storage id.
    pub open spec fn new_recursive_spec(circuit_id: u8) -> ProverServiceDataKey {
        ProverServiceDataKey {
            circuit_id,
            round: if circuit_id == SCHEDULER_CIRCUIT_ID {
                AggregationRound::Scheduler
            } else if circuit_id == NODE_LAYER_CIRCUIT_ID {
                AggregationRound::NodeAggregation
            } else if circuit_id == RECURSION_TIP_CIRCUIT_ID {
                AggregationRound::RecursionTip
            } else {
                AggregationRound::LeafAggregation
            },
        }
    }
}

/// The conventional data-directory location probed at position `k` when
/// the store is auto-located from a bare binary.
pub open spec fn spec_candidate(k: int) -> Seq<char> {
    if k == 0 {
        "./prover/data"@
    } else if k == 1 {
        "./data"@
    } else if k == 2 {
        "/prover/data"@
    } else {
        "/data"@
    }
}

/// The conventional data-directory locations checked when the store is
/// auto-located from a bare binary, in the order they are probed.
pub fn root_data_dir_candidates() -> (r: [&'static str; 4])
    ensures
        r@[0]@ == "./prover/data"@,
        r@[1]@ == "./data"@,
        r@[2]@ == "/prover/data"@,
        r@[3]@ == "/data"@,
{
    ["./prover/data", "./data", "/prover/data", "/data"]
}

/// The data-directory decision behind key-store auto-location: inside a
/// Cargo workspace the data directory is `<prover>/data`; for a bare
/// binary it is the first conventional location that exists, and none
/// existing is a failure the caller reports.
pub fn locate_data_dir(workspace_prover_dir: Option<String>, candidate_exists: [bool; 4]) -> (r:
    Option<String>)
    ensures
        match workspace_prover_dir {
            Some(p) => r matches Some(d) && d@ == p@ + "/data"@,
            None => {
                &&& ((exists|i: int| 0 <= i < 4 && candidate_exists@[i]) <==> r is Some)
                &&& forall|k: int|
                    0 <= k < 4 && candidate_exists@[k] && (forall|j: int|
                        0 <= j < k ==> !candidate_exists@[j]) ==> (r matches Some(d) && d@
                        == spec_candidate(k))
            },
        },
{
    match workspace_prover_dir {
        Some(p) => Some(p.concat("/data")),
        None => {
            let candidates = root_data_dir_candidates();
            let mut i: usize = 0;
            while i < 4
                invariant
                    i <= 4,
                    workspace_prover_dir is None,
                    candidates@.len() == 4,
                    forall|k: int| 0 <= k < 4 ==> (#[trigger] candidates@[k])@ == spec_candidate(k),
                    forall|j: int| 0 <= j < i ==> !candidate_exists@[j],
                decreases 4 - i,
            {
                if candidate_exists[i] {
                    let d = String::from_str(candidates[i]);
                    proof {
                        assert(d@ == spec_candidate(i as int));
                    }
                    return Some(d);
                }
                i += 1;
            }
            None
        },
    }
}

} // verus!
