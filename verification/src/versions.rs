//! Persisted protocol versions, the derivation of a new version from an
//! upgrade, and the version store.
//!
//! The store keeps a linear chain of versions: ids are contiguous and
//! strictly increasing, every version is derived by applying exactly one
//! upgrade to its predecessor, and versions are never deleted. The store
//! also models durability failures: a configurable number of upcoming
//! write attempts fail, as a real store may at any time.

use vstd::prelude::*;

use crate::error::Error;
use crate::hash::H160;
use crate::hash::H256;
use crate::proposal::ProposalView;
use crate::proposal::ProtocolUpgradeProposal;

verus! {

/// The mathematical value of one persisted version.
#[verifier::ext_equal]
pub struct VersionView {
    pub id: u64,
    pub timestamp: u64,
    pub bootloader_code_hash: Seq<u8>,
    pub default_account_code_hash: Seq<u8>,
    pub verifier_address: Seq<u8>,
    pub scheduler_vk_hash: Option<Seq<u8>>,
}

/// One persisted protocol version: the rollup execution parameters in
/// force from this version's activation on. Immutable once persisted.
#[derive(Clone, Copy, Debug, PartialEq, Eq)]
pub struct ProtocolVersion {
    /// Unique, totally ordered version id.
    pub id: u64,
    /// The timestamp of the upgrade that produced this version.
    pub timestamp: u64,
    /// The bootloader code hash in force.
    pub bootloader_code_hash: H256,
    /// The default-account code hash in force.
    pub default_account_code_hash: H256,
    /// The verifier contract in force.
    pub verifier_address: H160,
    /// The scheduler verification-key hash, once one has been resolved.
    pub scheduler_vk_hash: Option<H256>,
}

impl View for ProtocolVersion {
    type V = VersionView;

    open spec fn view(&self) -> VersionView {
        VersionView {
            id: self.id,
            timestamp: self.timestamp,
            bootloader_code_hash: self.bootloader_code_hash@,
            default_account_code_hash: self.default_account_code_hash@,
            verifier_address: self.verifier_address@,
            scheduler_vk_hash: match self.scheduler_vk_hash {
                Some(h) => Some(h@),
                None => None,
            },
        }
    }
}

/// The version obtained by applying `upgrade` (with the resolved scheduler
/// vk hash, if any) to `prev`: each parameter the upgrade carries replaces
/// the previous one, every other parameter is inherited.
pub open spec fn spec_apply_upgrade(
    prev: VersionView,
    upgrade: ProposalView,
    scheduler_vk_hash: Option<Seq<u8>>,
) -> VersionView {
    VersionView {
        id: upgrade.id,
        timestamp: upgrade.timestamp,
        bootloader_code_hash: match upgrade.bootloader_code_hash {
            Some(h) => h,
            None => prev.bootloader_code_hash,
        },
        default_account_code_hash: match upgrade.default_account_code_hash {
            Some(h) => h,
            None => prev.default_account_code_hash,
        },
        verifier_address: match upgrade.verifier_address {
            Some(a) => a,
            None => prev.verifier_address,
        },
        scheduler_vk_hash: match scheduler_vk_hash {
            Some(h) => Some(h),
            None => prev.scheduler_vk_hash,
        },
    }
}

impl ProtocolVersion {
    /// Derives the next version of the chain from this one. Pure: previous
    /// version + decoded upgrade + optional scheduler vk hash.
    pub fn apply_upgrade(
        &self,
        upgrade: &ProtocolUpgradeProposal,
        scheduler_vk_hash: Option<H256>,
    ) -> (v: ProtocolVersion)
        ensures
            v@ == spec_apply_upgrade(
                self@,
                upgrade@,
                match scheduler_vk_hash {
                    Some(h) => Some(h@),
                    None => None,
                },
            ),
    {
        let v = ProtocolVersion {
            id: upgrade.id,
            timestamp: upgrade.timestamp,
            bootloader_code_hash: match upgrade.bootloader_code_hash {
                Some(h) => h,
                None => self.bootloader_code_hash,
            },
            default_account_code_hash: match upgrade.default_account_code_hash {
                Some(h) => h,
                None => self.default_account_code_hash,
            },
            verifier_address: match upgrade.verifier_address {
                Some(a) => a,
                None => self.verifier_address,
            },
            scheduler_vk_hash: match scheduler_vk_hash {
                Some(h) => Some(h),
                None => self.scheduler_vk_hash,
            },
        };
        v
    }
}

/// A well-formed chain: non-empty, with contiguous, strictly increasing
/// version ids. This is the linearity invariant: every version has
/// exactly one direct predecessor and at most one direct successor.
pub open spec fn chain_wf(vs: Seq<VersionView>) -> bool {
    &&& vs.len() > 0
    &&& forall|i: int| 0 <= i < vs.len() ==> (#[trigger] vs[i].id) as int == vs[0].id + i
}

/// A chain holds a version with this id when the id lies between the
/// chain's first and last ids.
pub open spec fn chain_contains(vs: Seq<VersionView>, id: u64) -> bool {
    vs.len() > 0 && vs[0].id <= id <= vs.last().id
}

/// The chain's version with the given id (meaningful on well-formed,
/// contiguous chains).
pub open spec fn chain_at(vs: Seq<VersionView>, id: u64) -> VersionView
    recommends
        chain_contains(vs, id),
{
    vs[id - vs[0].id]
}

/// Writing `v` into the chain `vs`: a version one past the end extends the
/// chain; a version whose slot exists is written over in place (re-writing
/// an already-durable version is how a replayed batch stays idempotent).
pub open spec fn spec_store_write(vs: Seq<VersionView>, v: VersionView) -> Seq<VersionView>
    recommends
        vs.len() > 0,
        vs[0].id < v.id <= vs[0].id + vs.len(),
{
    if v.id == vs[0].id + vs.len() {
        vs.push(v)
    } else {
        vs.update(v.id - vs[0].id, v)
    }
}

/// The version store: the durable, linear chain of protocol versions.
///
/// `pending_write_failures` models the store's durability behaviour: that
/// many upcoming write attempts will be refused before writes succeed
/// again. Verified code makes no assumption about it beyond what
/// `save_version` states, so every proof holds whatever failures a real
/// store produces.
pub struct VersionStore {
    pub versions: Vec<ProtocolVersion>,
    pub pending_write_failures: u64,
}

impl VersionStore {
    /// The chain as a mathematical sequence.
    pub open spec fn contents(&self) -> Seq<VersionView> {
        self.versions@.map_values(|v: ProtocolVersion| v@)
    }

    /// The id of the oldest version in the store.
    pub open spec fn first_id(&self) -> u64 {
        self.contents()[0].id
    }

    /// The id of the newest version in the store.
    pub open spec fn max_id(&self) -> u64 {
        self.contents().last().id
    }

    /// Well-formedness: the store is non-empty (it is seeded with a
    /// genesis version before any processing) and its chain is linear.
    pub open spec fn wf(&self) -> bool {
        chain_wf(self.contents())
    }

    /// The store holds a version with this id.
    pub open spec fn contains_id(&self, id: u64) -> bool {
        chain_contains(self.contents(), id)
    }

    /// The stored version with the given id.
    pub open spec fn version_at(&self, id: u64) -> VersionView
        recommends
            self.wf(),
            self.contains_id(id),
    {
        chain_at(self.contents(), id)
    }

    /// A fresh store holding only a genesis version.
    pub fn new(genesis: ProtocolVersion) -> (s: VersionStore)
        ensures
            s.wf(),
            s.contents() == seq![genesis@],
            s.pending_write_failures == 0,
    {
        let mut versions: Vec<ProtocolVersion> = Vec::new();
        versions.push(genesis);
        let s = VersionStore { versions, pending_write_failures: 0 };
        proof {
            assert(s.contents() =~= seq![genesis@]);
        }
        s
    }

    /// Declares that the next `n` write attempts will fail, as a real
    /// store may refuse durability at any time.
    pub fn set_pending_write_failures(&mut self, n: u64)
        ensures
            final(self).versions == old(self).versions,
            final(self).pending_write_failures == n,
    {
        self.pending_write_failures = n;
    }

    /// The highest version id present in the store; used at processor
    /// construction to seed the watermark.
    pub fn max_applied_version_id(&self) -> (r: u64)
        requires
            self.wf(),
        ensures
            r == self.max_id(),
    {
        self.versions[self.versions.len() - 1].id
    }

    /// Loads the version preceding the given upgrade id. This is expected
    /// to succeed while ids are applied strictly in order; `None` reports
    /// that the predecessor is absent, which callers treat as fatal.
    pub fn load_previous_version(&self, id: u64) -> (r: Option<ProtocolVersion>)
        requires
            self.wf(),
        ensures
            match r {
                Some(v) => id >= 1 && self.contains_id((id - 1) as u64) && v@ == self.version_at(
                    (id - 1) as u64,
                ),
                None => id == 0 || !self.contains_id((id - 1) as u64),
            },
    {
        if id == 0 {
            return None;
        }
        let prev_id = id - 1;
        let first = self.versions[0].id;
        if prev_id < first {
            return None;
        }
        let offset = prev_id - first;
        if offset >= self.versions.len() as u64 {
            return None;
        }
        let v = self.versions[offset as usize];
        Some(v)
    }

    /// Durably stores one version, or reports a durability failure.
    ///
    /// On success the chain is extended (or an existing slot re-written);
    /// on failure the store is unchanged except that one pending failure
    /// is consumed. Each call stores one version or reports failure; there
    /// is no partial visibility of a single record.
    pub fn save_version(&mut self, version: ProtocolVersion) -> (r: Result<(), Error>)
        requires
            old(self).wf(),
            old(self).first_id() < version.id,
            version.id <= old(self).first_id() + old(self).contents().len(),
        ensures
            final(self).wf(),
            final(self).first_id() == old(self).first_id(),
            match r {
                Ok(()) => {
                    &&& old(self).pending_write_failures == 0
                    &&& final(self).pending_write_failures == 0
                    &&& final(self).contents() == spec_store_write(old(self).contents(), version@)
                },
                Err(e) => {
                    &&& e == Error::StoreWrite
                    &&& old(self).pending_write_failures > 0
                    &&& final(self).pending_write_failures == old(self).pending_write_failures - 1
                    &&& final(self).contents() == old(self).contents()
                },
            },
    {
        if self.pending_write_failures > 0 {
            self.pending_write_failures = self.pending_write_failures - 1;
            return Err(Error::StoreWrite);
        }
        let first = self.versions[0].id;
        let offset = version.id - first;
        if offset == self.versions.len() as u64 {
            self.versions.push(version);
            proof {
                assert(self.contents() =~= spec_store_write(
                    old(self).contents(),
                    version@,
                ));
            }
        } else {
            let idx = offset as usize;
            self.versions[idx] = version;
            proof {
                assert(self.contents() =~= spec_store_write(
                    old(self).contents(),
                    version@,
                ));
            }
        }
        Ok(())
    }
}

} // verus!
