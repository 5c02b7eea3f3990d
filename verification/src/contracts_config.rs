//! Conversion between the wire form of the contracts configuration —
//! nested records of optional `0x`-hex strings — and its typed form.
//!
//! `read` checks every required record and parses every address, failing
//! on the first missing or malformed field in a fixed evaluation order;
//! `build` renders a typed configuration back into wire form.

use vstd::prelude::*;
use vstd::string::StrSliceExecFns;

use crate::hash::H160;
use crate::hash::H256;
use crate::hex::format_hex;
use crate::hex::hex_decode;
use crate::hex::hex_display;
use crate::hex::is_hex_string;
use crate::hex::lemma_hex_round_trip;
use crate::hex::parse_hex_bytes;

verus! {

/// One bridge's pair of addresses in wire form.
pub struct ProtoBridge {
    pub l1_address: Option<String>,
    pub l2_address: Option<String>,
}

/// The three bridges in wire form.
pub struct ProtoBridges {
    pub shared: Option<ProtoBridge>,
    pub erc20: Option<ProtoBridge>,
    pub weth: Option<ProtoBridge>,
}

/// The settlement-layer contract addresses in wire form.
pub struct ProtoL1 {
    pub governance_addr: Option<String>,
    pub verifier_addr: Option<String>,
    pub diamond_proxy_addr: Option<String>,
    pub validator_timelock_addr: Option<String>,
    pub default_upgrade_addr: Option<String>,
    pub multicall3_addr: Option<String>,
    pub base_token_addr: Option<String>,
    pub base_token_asset_id: Option<String>,
    pub chain_admin_addr: Option<String>,
    pub predeployed_l2_weth_token_address: Option<String>,
}

/// The rollup-side contract addresses in wire form.
pub struct ProtoL2 {
    pub testnet_paymaster_addr: Option<String>,
    pub da_validator_addr: Option<String>,
    pub legacy_shared_bridge_addr: Option<String>,
}

/// The ecosystem contract addresses in wire form.
pub struct ProtoEcosystemContracts {
    pub bridgehub_proxy_addr: Option<String>,
    pub state_transition_proxy_addr: Option<String>,
    pub transparent_proxy_admin_addr: Option<String>,
    pub l1_bytecodes_supplier_addr: Option<String>,
}

/// The whole contracts configuration in wire form.
pub struct ProtoContracts {
    pub ecosystem_contracts: Option<ProtoEcosystemContracts>,
    pub l1: Option<ProtoL1>,
    pub l2: Option<ProtoL2>,
    pub bridges: Option<ProtoBridges>,
    pub user_facing_bridgehub: Option<String>,
    pub user_facing_diamond_proxy: Option<String>,
    pub settlement_layer: Option<u64>,
}

/// The typed ecosystem contract addresses.
#[derive(Clone, Copy, Debug, PartialEq, Eq)]
pub struct EcosystemContracts {
    pub bridgehub_proxy_addr: H160,
    pub state_transition_proxy_addr: H160,
    pub transparent_proxy_admin_addr: H160,
    pub l1_bytecodes_supplier_addr: Option<H160>,
}

/// The typed contracts configuration.
#[derive(Clone, Copy, Debug, PartialEq, Eq)]
pub struct ContractsConfig {
    pub ecosystem_contracts: Option<EcosystemContracts>,
    pub governance_addr: H160,
    pub verifier_addr: H160,
    pub default_upgrade_addr: H160,
    pub diamond_proxy_addr: H160,
    pub validator_timelock_addr: H160,
    pub l1_erc20_bridge_proxy_addr: Option<H160>,
    pub l2_erc20_bridge_addr: Option<H160>,
    pub l1_shared_bridge_proxy_addr: Option<H160>,
    pub l2_shared_bridge_addr: Option<H160>,
    pub l2_legacy_shared_bridge_addr: Option<H160>,
    pub l1_weth_bridge_proxy_addr: Option<H160>,
    pub l2_weth_bridge_addr: Option<H160>,
    pub l2_testnet_paymaster_addr: Option<H160>,
    pub l1_multicall3_addr: H160,
    pub base_token_addr: Option<H160>,
    pub base_token_asset_id: Option<H256>,
    pub predeployed_l2_weth_token_address: Option<H160>,
    pub user_facing_bridgehub_proxy_addr: Option<H160>,
    pub user_facing_diamond_proxy_addr: Option<H160>,
    pub chain_admin_addr: Option<H160>,
    pub settlement_layer: Option<u64>,
    pub l2_da_validator_addr: Option<H160>,
}

/// Which wire field a read failure concerns.
#[derive(Clone, Copy, Debug, PartialEq, Eq)]
pub enum ContractsField {
    L1,
    L2,
    Bridges,
    SharedBridge,
    Erc20Bridge,
    BridgehubProxyAddr,
    StateTransitionProxyAddr,
    TransparentProxyAdminAddr,
    GovernanceAddr,
    VerifierAddr,
    DefaultUpgradeAddr,
    DiamondProxyAddr,
    ValidatorTimelockAddr,
    L1Erc20BridgeAddr,
    L2Erc20BridgeAddr,
    L1SharedBridgeAddr,
    L2SharedBridgeAddr,
    L2LegacySharedBridgeAddr,
    L1WethBridgeAddr,
    L2WethBridgeAddr,
    L2TestnetPaymasterAddr,
    Multicall3Addr,
    BaseTokenAddr,
    BaseTokenAssetId,
    PredeployedL2WethTokenAddr,
    UserFacingBridgehubAddr,
    UserFacingDiamondProxyAddr,
    ChainAdminAddr,
    L2DaValidatorAddr,
}

/// Why reading the wire form failed: a required record or field is
/// absent, or a present field does not parse as a hex value.
#[derive(Clone, Copy, Debug, PartialEq, Eq)]
pub enum ContractsReadError {
    Missing(ContractsField),
    Invalid(ContractsField),
}

/// The address bytes a `0x`-prefixed hex string denotes.
pub open spec fn addr_bytes(s: Seq<char>) -> Seq<u8> {
    hex_decode(s.skip(2))
}

/// The value of an optional address.
pub open spec fn opt_h160_view(o: Option<H160>) -> Option<Seq<u8>> {
    match o {
        Some(h) => Some(h@),
        None => None,
    }
}

/// The value of an optional hash.
pub open spec fn opt_h256_view(o: Option<H256>) -> Option<Seq<u8>> {
    match o {
        Some(h) => Some(h@),
        None => None,
    }
}

/// The value of an optional string.
pub open spec fn opt_str_view(o: Option<String>) -> Option<Seq<char>> {
    match o {
        Some(s) => Some(s@),
        None => None,
    }
}

/// The bytes an optional address field decodes to.
pub open spec fn opt_addr_bytes(o: Option<String>) -> Option<Seq<u8>> {
    match o {
        None => None,
        Some(s) => Some(addr_bytes(s@)),
    }
}

/// The wire rendering of an optional address.
pub open spec fn opt_addr_display(o: Option<H160>) -> Option<Seq<char>> {
    match o {
        None => None,
        Some(h) => Some(hex_display(h@)),
    }
}

/// The wire rendering of an optional hash.
pub open spec fn opt_hash_display(o: Option<H256>) -> Option<Seq<char>> {
    match o {
        None => None,
        Some(h) => Some(hex_display(h@)),
    }
}

/// The failure a required address field produces, if any.
pub open spec fn req_addr_error(o: Option<String>, f: ContractsField) -> Option<
    ContractsReadError,
> {
    match o {
        None => Some(ContractsReadError::Missing(f)),
        Some(s) => if is_hex_string(s@, 20) {
            None
        } else {
            Some(ContractsReadError::Invalid(f))
        },
    }
}

/// The failure an optional address field produces, if any.
pub open spec fn opt_addr_error(o: Option<String>, f: ContractsField) -> Option<
    ContractsReadError,
> {
    match o {
        None => None,
        Some(s) => if is_hex_string(s@, 20) {
            None
        } else {
            Some(ContractsReadError::Invalid(f))
        },
    }
}

/// The failure an optional 32-byte hash field produces, if any.
pub open spec fn opt_hash_error(o: Option<String>, f: ContractsField) -> Option<
    ContractsReadError,
> {
    match o {
        None => None,
        Some(s) => if is_hex_string(s@, 32) {
            None
        } else {
            Some(ContractsReadError::Invalid(f))
        },
    }
}

/// The legacy shared bridge address, where an empty string counts as
/// absent.
pub open spec fn legacy_addr_error(o: Option<String>) -> Option<ContractsReadError> {
    match o {
        None => None,
        Some(s) => if s@.len() == 0 {
            None
        } else if is_hex_string(s@, 20) {
            None
        } else {
            Some(ContractsReadError::Invalid(ContractsField::L2LegacySharedBridgeAddr))
        },
    }
}

/// The bytes the legacy shared bridge field decodes to.
pub open spec fn legacy_addr_bytes(o: Option<String>) -> Option<Seq<u8>> {
    match o {
        None => None,
        Some(s) => if s@.len() == 0 {
            None
        } else {
            Some(addr_bytes(s@))
        },
    }
}

/// The failure one weth-bridge side produces, if any.
pub open spec fn weth_side_error(
    w: Option<ProtoBridge>,
    l1_side: bool,
    f: ContractsField,
) -> Option<ContractsReadError> {
    match w {
        None => None,
        Some(b) => opt_addr_error(
            if l1_side {
                b.l1_address
            } else {
                b.l2_address
            },
            f,
        ),
    }
}

/// The bytes one weth-bridge side decodes to.
pub open spec fn weth_side_bytes(w: Option<ProtoBridge>, l1_side: bool) -> Option<Seq<u8>> {
    match w {
        None => None,
        Some(b) => opt_addr_bytes(
            if l1_side {
                b.l1_address
            } else {
                b.l2_address
            },
        ),
    }
}

/// The failure the ecosystem record produces, if any.
pub open spec fn ecosystem_error(o: Option<ProtoEcosystemContracts>) -> Option<
    ContractsReadError,
> {
    match o {
        None => None,
        Some(e) => if req_addr_error(
            e.bridgehub_proxy_addr,
            ContractsField::BridgehubProxyAddr,
        ) is Some {
            req_addr_error(e.bridgehub_proxy_addr, ContractsField::BridgehubProxyAddr)
        } else if req_addr_error(
            e.state_transition_proxy_addr,
            ContractsField::StateTransitionProxyAddr,
        ) is Some {
            req_addr_error(e.state_transition_proxy_addr, ContractsField::StateTransitionProxyAddr)
        } else if req_addr_error(
            e.transparent_proxy_admin_addr,
            ContractsField::TransparentProxyAdminAddr,
        ) is Some {
            req_addr_error(e.transparent_proxy_admin_addr, ContractsField::TransparentProxyAdminAddr)
        } else {
            None
        },
    }
}

/// The first failure `read` reports for this wire value, if any, in the
/// fixed evaluation order: required records, the ecosystem record, then
/// each address field in declaration order.
pub open spec fn first_read_error(p: ProtoContracts) -> Option<ContractsReadError> {
    if p.l1 is None {
        Some(ContractsReadError::Missing(ContractsField::L1))
    } else if p.l2 is None {
        Some(ContractsReadError::Missing(ContractsField::L2))
    } else if p.bridges is None {
        Some(ContractsReadError::Missing(ContractsField::Bridges))
    } else if p.bridges.unwrap().shared is None {
        Some(ContractsReadError::Missing(ContractsField::SharedBridge))
    } else if p.bridges.unwrap().erc20 is None {
        Some(ContractsReadError::Missing(ContractsField::Erc20Bridge))
    } else if ecosystem_error(p.ecosystem_contracts) is Some {
        ecosystem_error(p.ecosystem_contracts)
    } else if req_addr_error(p.l1.unwrap().governance_addr, ContractsField::GovernanceAddr)
        is Some {
        req_addr_error(p.l1.unwrap().governance_addr, ContractsField::GovernanceAddr)
    } else if req_addr_error(p.l1.unwrap().verifier_addr, ContractsField::VerifierAddr) is Some {
        req_addr_error(p.l1.unwrap().verifier_addr, ContractsField::VerifierAddr)
    } else if req_addr_error(
        p.l1.unwrap().default_upgrade_addr,
        ContractsField::DefaultUpgradeAddr,
    ) is Some {
        req_addr_error(p.l1.unwrap().default_upgrade_addr, ContractsField::DefaultUpgradeAddr)
    } else if req_addr_error(p.l1.unwrap().diamond_proxy_addr, ContractsField::DiamondProxyAddr)
        is Some {
        req_addr_error(p.l1.unwrap().diamond_proxy_addr, ContractsField::DiamondProxyAddr)
    } else if req_addr_error(
        p.l1.unwrap().validator_timelock_addr,
        ContractsField::ValidatorTimelockAddr,
    ) is Some {
        req_addr_error(p.l1.unwrap().validator_timelock_addr, ContractsField::ValidatorTimelockAddr)
    } else if opt_addr_error(
        p.bridges.unwrap().erc20.unwrap().l1_address,
        ContractsField::L1Erc20BridgeAddr,
    ) is Some {
        opt_addr_error(p.bridges.unwrap().erc20.unwrap().l1_address, ContractsField::L1Erc20BridgeAddr)
    } else if opt_addr_error(
        p.bridges.unwrap().erc20.unwrap().l2_address,
        ContractsField::L2Erc20BridgeAddr,
    ) is Some {
        opt_addr_error(p.bridges.unwrap().erc20.unwrap().l2_address, ContractsField::L2Erc20BridgeAddr)
    } else if opt_addr_error(
        p.bridges.unwrap().shared.unwrap().l1_address,
        ContractsField::L1SharedBridgeAddr,
    ) is Some {
        opt_addr_error(p.bridges.unwrap().shared.unwrap().l1_address, ContractsField::L1SharedBridgeAddr)
    } else if opt_addr_error(
        p.bridges.unwrap().shared.unwrap().l2_address,
        ContractsField::L2SharedBridgeAddr,
    ) is Some {
        opt_addr_error(p.bridges.unwrap().shared.unwrap().l2_address, ContractsField::L2SharedBridgeAddr)
    } else if legacy_addr_error(p.l2.unwrap().legacy_shared_bridge_addr) is Some {
        legacy_addr_error(p.l2.unwrap().legacy_shared_bridge_addr)
    } else if weth_side_error(p.bridges.unwrap().weth, true, ContractsField::L1WethBridgeAddr)
        is Some {
        weth_side_error(p.bridges.unwrap().weth, true, ContractsField::L1WethBridgeAddr)
    } else if weth_side_error(p.bridges.unwrap().weth, false, ContractsField::L2WethBridgeAddr)
        is Some {
        weth_side_error(p.bridges.unwrap().weth, false, ContractsField::L2WethBridgeAddr)
    } else if opt_addr_error(
        p.l2.unwrap().testnet_paymaster_addr,
        ContractsField::L2TestnetPaymasterAddr,
    ) is Some {
        opt_addr_error(p.l2.unwrap().testnet_paymaster_addr, ContractsField::L2TestnetPaymasterAddr)
    } else if req_addr_error(p.l1.unwrap().multicall3_addr, ContractsField::Multicall3Addr)
        is Some {
        req_addr_error(p.l1.unwrap().multicall3_addr, ContractsField::Multicall3Addr)
    } else if opt_addr_error(p.l1.unwrap().base_token_addr, ContractsField::BaseTokenAddr)
        is Some {
        opt_addr_error(p.l1.unwrap().base_token_addr, ContractsField::BaseTokenAddr)
    } else if opt_hash_error(p.l1.unwrap().base_token_asset_id, ContractsField::BaseTokenAssetId)
        is Some {
        opt_hash_error(p.l1.unwrap().base_token_asset_id, ContractsField::BaseTokenAssetId)
    } else if opt_addr_error(
        p.l1.unwrap().predeployed_l2_weth_token_address,
        ContractsField::PredeployedL2WethTokenAddr,
    ) is Some {
        opt_addr_error(
            p.l1.unwrap().predeployed_l2_weth_token_address,
            ContractsField::PredeployedL2WethTokenAddr,
        )
    } else if opt_addr_error(p.user_facing_bridgehub, ContractsField::UserFacingBridgehubAddr)
        is Some {
        opt_addr_error(p.user_facing_bridgehub, ContractsField::UserFacingBridgehubAddr)
    } else if opt_addr_error(
        p.user_facing_diamond_proxy,
        ContractsField::UserFacingDiamondProxyAddr,
    ) is Some {
        opt_addr_error(p.user_facing_diamond_proxy, ContractsField::UserFacingDiamondProxyAddr)
    } else if opt_addr_error(p.l1.unwrap().chain_admin_addr, ContractsField::ChainAdminAddr)
        is Some {
        opt_addr_error(p.l1.unwrap().chain_admin_addr, ContractsField::ChainAdminAddr)
    } else if opt_addr_error(p.l2.unwrap().da_validator_addr, ContractsField::L2DaValidatorAddr)
        is Some {
        opt_addr_error(p.l2.unwrap().da_validator_addr, ContractsField::L2DaValidatorAddr)
    } else {
        None
    }
}

/// A present field rendered from an address is well formed.
proof fn lemma_req_display_clean(b: Seq<u8>, s: Option<String>, f: ContractsField)
    requires
        b.len() == 20,
        opt_str_view(s) == Some(hex_display(b)),
    ensures
        req_addr_error(s, f) is None,
        opt_addr_error(s, f) is None,
{
    lemma_hex_round_trip(b);
}

/// An optional field rendered from an optional address is well formed.
proof fn lemma_opt_display_clean(o: Option<H160>, s: Option<String>, f: ContractsField)
    requires
        opt_str_view(s) == opt_addr_display(o),
    ensures
        opt_addr_error(s, f) is None,
        legacy_addr_error(s) is None,
{
    match o {
        None => {},
        Some(h) => {
            lemma_hex_round_trip(h@);
            assert(hex_display(h@).len() == 42);
        },
    }
}

/// An optional field rendered from an optional hash is well formed.
proof fn lemma_opt_hash_display_clean(o: Option<H256>, s: Option<String>, f: ContractsField)
    requires
        opt_str_view(s) == opt_hash_display(o),
    ensures
        opt_hash_error(s, f) is None,
{
    match o {
        None => {},
        Some(h) => {
            lemma_hex_round_trip(h@);
        },
    }
}

/// Round trip, first half: a wire value rendered by `build` from any
/// typed configuration reads back without error — every required record
/// is present and every rendered field is well formed — so `read` on it
/// returns a configuration (by `read`'s contract, with exactly the field
/// values `build`'s contract renders).
pub proof fn lemma_built_wire_reads_clean(c: ContractsConfig, w: ProtoContracts)
    requires
        w.l1 is Some,
        w.l2 is Some,
        w.bridges is Some,
        w.bridges.unwrap().shared is Some,
        w.bridges.unwrap().erc20 is Some,
        w.bridges.unwrap().weth is Some,
        (match (c.ecosystem_contracts, w.ecosystem_contracts) {
            (None, None) => true,
            (Some(ce), Some(pe)) => {
                &&& opt_str_view(pe.bridgehub_proxy_addr) == Some(
                    hex_display(ce.bridgehub_proxy_addr@),
                )
                &&& opt_str_view(pe.state_transition_proxy_addr) == Some(
                    hex_display(ce.state_transition_proxy_addr@),
                )
                &&& opt_str_view(pe.transparent_proxy_admin_addr) == Some(
                    hex_display(ce.transparent_proxy_admin_addr@),
                )
                &&& opt_str_view(pe.l1_bytecodes_supplier_addr) == opt_addr_display(
                    ce.l1_bytecodes_supplier_addr,
                )
            },
            _ => false,
        }),
        opt_str_view(w.l1.unwrap().governance_addr) == Some(hex_display(c.governance_addr@)),
        opt_str_view(w.l1.unwrap().verifier_addr) == Some(hex_display(c.verifier_addr@)),
        opt_str_view(w.l1.unwrap().diamond_proxy_addr) == Some(
            hex_display(c.diamond_proxy_addr@),
        ),
        opt_str_view(w.l1.unwrap().validator_timelock_addr) == Some(
            hex_display(c.validator_timelock_addr@),
        ),
        opt_str_view(w.l1.unwrap().default_upgrade_addr) == Some(
            hex_display(c.default_upgrade_addr@),
        ),
        opt_str_view(w.l1.unwrap().multicall3_addr) == Some(hex_display(c.l1_multicall3_addr@)),
        opt_str_view(w.l1.unwrap().base_token_addr) == opt_addr_display(c.base_token_addr),
        opt_str_view(w.l1.unwrap().base_token_asset_id) == opt_hash_display(
            c.base_token_asset_id,
        ),
        opt_str_view(w.l1.unwrap().chain_admin_addr) == opt_addr_display(c.chain_admin_addr),
        opt_str_view(w.l1.unwrap().predeployed_l2_weth_token_address) == opt_addr_display(
            c.predeployed_l2_weth_token_address,
        ),
        opt_str_view(w.l2.unwrap().testnet_paymaster_addr) == opt_addr_display(
            c.l2_testnet_paymaster_addr,
        ),
        opt_str_view(w.l2.unwrap().da_validator_addr) == opt_addr_display(
            c.l2_da_validator_addr,
        ),
        opt_str_view(w.l2.unwrap().legacy_shared_bridge_addr) == opt_addr_display(
            c.l2_legacy_shared_bridge_addr,
        ),
        opt_str_view(w.bridges.unwrap().shared.unwrap().l1_address) == opt_addr_display(
            c.l1_shared_bridge_proxy_addr,
        ),
        opt_str_view(w.bridges.unwrap().shared.unwrap().l2_address) == opt_addr_display(
            c.l2_shared_bridge_addr,
        ),
        opt_str_view(w.bridges.unwrap().erc20.unwrap().l1_address) == opt_addr_display(
            c.l1_erc20_bridge_proxy_addr,
        ),
        opt_str_view(w.bridges.unwrap().erc20.unwrap().l2_address) == opt_addr_display(
            c.l2_erc20_bridge_addr,
        ),
        opt_str_view(w.bridges.unwrap().weth.unwrap().l1_address) == opt_addr_display(
            c.l1_weth_bridge_proxy_addr,
        ),
        opt_str_view(w.bridges.unwrap().weth.unwrap().l2_address) == opt_addr_display(
            c.l2_weth_bridge_addr,
        ),
        opt_str_view(w.user_facing_bridgehub) == opt_addr_display(
            c.user_facing_bridgehub_proxy_addr,
        ),
        opt_str_view(w.user_facing_diamond_proxy) == opt_addr_display(
            c.user_facing_diamond_proxy_addr,
        ),
    ensures
        first_read_error(w) is None,
{
    let l1 = w.l1.unwrap();
    let l2 = w.l2.unwrap();
    let bridges = w.bridges.unwrap();
    match (c.ecosystem_contracts, w.ecosystem_contracts) {
        (Some(ce), Some(pe)) => {
            lemma_req_display_clean(
                ce.bridgehub_proxy_addr@,
                pe.bridgehub_proxy_addr,
                ContractsField::BridgehubProxyAddr,
            );
            lemma_req_display_clean(
                ce.state_transition_proxy_addr@,
                pe.state_transition_proxy_addr,
                ContractsField::StateTransitionProxyAddr,
            );
            lemma_req_display_clean(
                ce.transparent_proxy_admin_addr@,
                pe.transparent_proxy_admin_addr,
                ContractsField::TransparentProxyAdminAddr,
            );
        },
        _ => {},
    }
    lemma_req_display_clean(
        c.governance_addr@,
        l1.governance_addr,
        ContractsField::GovernanceAddr,
    );
    lemma_req_display_clean(c.verifier_addr@, l1.verifier_addr, ContractsField::VerifierAddr);
    lemma_req_display_clean(
        c.default_upgrade_addr@,
        l1.default_upgrade_addr,
        ContractsField::DefaultUpgradeAddr,
    );
    lemma_req_display_clean(
        c.diamond_proxy_addr@,
        l1.diamond_proxy_addr,
        ContractsField::DiamondProxyAddr,
    );
    lemma_req_display_clean(
        c.validator_timelock_addr@,
        l1.validator_timelock_addr,
        ContractsField::ValidatorTimelockAddr,
    );
    lemma_req_display_clean(
        c.l1_multicall3_addr@,
        l1.multicall3_addr,
        ContractsField::Multicall3Addr,
    );
    lemma_opt_display_clean(
        c.l1_erc20_bridge_proxy_addr,
        bridges.erc20.unwrap().l1_address,
        ContractsField::L1Erc20BridgeAddr,
    );
    lemma_opt_display_clean(
        c.l2_erc20_bridge_addr,
        bridges.erc20.unwrap().l2_address,
        ContractsField::L2Erc20BridgeAddr,
    );
    lemma_opt_display_clean(
        c.l1_shared_bridge_proxy_addr,
        bridges.shared.unwrap().l1_address,
        ContractsField::L1SharedBridgeAddr,
    );
    lemma_opt_display_clean(
        c.l2_shared_bridge_addr,
        bridges.shared.unwrap().l2_address,
        ContractsField::L2SharedBridgeAddr,
    );
    lemma_opt_display_clean(
        c.l2_legacy_shared_bridge_addr,
        l2.legacy_shared_bridge_addr,
        ContractsField::L2LegacySharedBridgeAddr,
    );
    lemma_opt_display_clean(
        c.l1_weth_bridge_proxy_addr,
        bridges.weth.unwrap().l1_address,
        ContractsField::L1WethBridgeAddr,
    );
    lemma_opt_display_clean(
        c.l2_weth_bridge_addr,
        bridges.weth.unwrap().l2_address,
        ContractsField::L2WethBridgeAddr,
    );
    lemma_opt_display_clean(
        c.l2_testnet_paymaster_addr,
        l2.testnet_paymaster_addr,
        ContractsField::L2TestnetPaymasterAddr,
    );
    lemma_opt_display_clean(
        c.base_token_addr,
        l1.base_token_addr,
        ContractsField::BaseTokenAddr,
    );
    lemma_opt_hash_display_clean(
        c.base_token_asset_id,
        l1.base_token_asset_id,
        ContractsField::BaseTokenAssetId,
    );
    lemma_opt_display_clean(
        c.predeployed_l2_weth_token_address,
        l1.predeployed_l2_weth_token_address,
        ContractsField::PredeployedL2WethTokenAddr,
    );
    lemma_opt_display_clean(
        c.user_facing_bridgehub_proxy_addr,
        w.user_facing_bridgehub,
        ContractsField::UserFacingBridgehubAddr,
    );
    lemma_opt_display_clean(
        c.user_facing_diamond_proxy_addr,
        w.user_facing_diamond_proxy,
        ContractsField::UserFacingDiamondProxyAddr,
    );
    lemma_opt_display_clean(
        c.chain_admin_addr,
        l1.chain_admin_addr,
        ContractsField::ChainAdminAddr,
    );
    lemma_opt_display_clean(
        c.l2_da_validator_addr,
        l2.da_validator_addr,
        ContractsField::L2DaValidatorAddr,
    );
}

/// Parses a required address field.
fn parse_req_addr(o: &Option<String>, field: ContractsField) -> (r: Result<
    H160,
    ContractsReadError,
>)
    ensures
        match r {
            Ok(h) => req_addr_error(*o, field) is None && *o is Some && h@ == addr_bytes(
                o.unwrap()@,
            ),
            Err(e) => req_addr_error(*o, field) == Some(e),
        },
{
    match o {
        None => Err(ContractsReadError::Missing(field)),
        Some(s) => match parse_hex_bytes(s.as_str(), 20) {
            Some(v) => Ok(H160::from_vec(&v)),
            None => Err(ContractsReadError::Invalid(field)),
        },
    }
}

/// Parses an optional address field.
fn parse_opt_addr(o: &Option<String>, field: ContractsField) -> (r: Result<
    Option<H160>,
    ContractsReadError,
>)
    ensures
        match r {
            Ok(h) => opt_addr_error(*o, field) is None && opt_h160_view(h) == opt_addr_bytes(*o),
            Err(e) => opt_addr_error(*o, field) == Some(e),
        },
{
    match o {
        None => Ok(None),
        Some(s) => match parse_hex_bytes(s.as_str(), 20) {
            Some(v) => Ok(Some(H160::from_vec(&v))),
            None => Err(ContractsReadError::Invalid(field)),
        },
    }
}

/// Parses an optional 32-byte hash field.
fn parse_opt_hash(o: &Option<String>, field: ContractsField) -> (r: Result<
    Option<H256>,
    ContractsReadError,
>)
    ensures
        match r {
            Ok(h) => opt_hash_error(*o, field) is None && opt_h256_view(h) == opt_addr_bytes(*o),
            Err(e) => opt_hash_error(*o, field) == Some(e),
        },
{
    match o {
        None => Ok(None),
        Some(s) => match parse_hex_bytes(s.as_str(), 32) {
            Some(v) => Ok(Some(H256::from_vec(&v))),
            None => Err(ContractsReadError::Invalid(field)),
        },
    }
}

/// Renders an optional address field.
fn build_opt_addr(o: &Option<H160>) -> (r: Option<String>)
    ensures
        opt_str_view(r) == opt_addr_display(*o),
{
    match o {
        None => None,
        Some(h) => Some(format_hex(h.bytes.as_slice())),
    }
}

impl ProtoContracts {
    /// Reads the wire form into a typed configuration, failing on the
    /// first missing required record or malformed address, exactly as
    /// `first_read_error` prescribes.
    ///
    /// The bytecodes-supplier address, when present, must be well-formed:
    /// it is the one field whose rejection the configuration layer does
    /// not report as an error.
    pub fn read(&self) -> (r: Result<ContractsConfig, ContractsReadError>)
        requires
            match self.ecosystem_contracts {
                Some(e) => match e.l1_bytecodes_supplier_addr {
                    Some(s) => is_hex_string(s@, 20),
                    None => true,
                },
                None => true,
            },
        ensures
            match r {
                Ok(c) => {
                    &&& first_read_error(*self) is None
                    &&& self.l1 is Some
                    &&& self.l2 is Some
                    &&& self.bridges is Some
                    &&& self.bridges.unwrap().shared is Some
                    &&& self.bridges.unwrap().erc20 is Some
                    &&& (match (self.ecosystem_contracts, c.ecosystem_contracts) {
                        (None, None) => true,
                        (Some(pe), Some(ce)) => {
                            &&& ce.bridgehub_proxy_addr@ == addr_bytes(
                                pe.bridgehub_proxy_addr.unwrap()@,
                            )
                            &&& ce.state_transition_proxy_addr@ == addr_bytes(
                                pe.state_transition_proxy_addr.unwrap()@,
                            )
                            &&& ce.transparent_proxy_admin_addr@ == addr_bytes(
                                pe.transparent_proxy_admin_addr.unwrap()@,
                            )
                            &&& opt_h160_view(ce.l1_bytecodes_supplier_addr) == opt_addr_bytes(
                                pe.l1_bytecodes_supplier_addr,
                            )
                        },
                        _ => false,
                    })
                    &&& c.governance_addr@ == addr_bytes(self.l1.unwrap().governance_addr.unwrap()@)
                    &&& c.verifier_addr@ == addr_bytes(self.l1.unwrap().verifier_addr.unwrap()@)
                    &&& c.default_upgrade_addr@ == addr_bytes(
                        self.l1.unwrap().default_upgrade_addr.unwrap()@,
                    )
                    &&& c.diamond_proxy_addr@ == addr_bytes(
                        self.l1.unwrap().diamond_proxy_addr.unwrap()@,
                    )
                    &&& c.validator_timelock_addr@ == addr_bytes(
                        self.l1.unwrap().validator_timelock_addr.unwrap()@,
                    )
                    &&& opt_h160_view(c.l1_erc20_bridge_proxy_addr) == opt_addr_bytes(
                        self.bridges.unwrap().erc20.unwrap().l1_address,
                    )
                    &&& opt_h160_view(c.l2_erc20_bridge_addr) == opt_addr_bytes(
                        self.bridges.unwrap().erc20.unwrap().l2_address,
                    )
                    &&& opt_h160_view(c.l1_shared_bridge_proxy_addr) == opt_addr_bytes(
                        self.bridges.unwrap().shared.unwrap().l1_address,
                    )
                    &&& opt_h160_view(c.l2_shared_bridge_addr) == opt_addr_bytes(
                        self.bridges.unwrap().shared.unwrap().l2_address,
                    )
                    &&& opt_h160_view(c.l2_legacy_shared_bridge_addr) == legacy_addr_bytes(
                        self.l2.unwrap().legacy_shared_bridge_addr,
                    )
                    &&& opt_h160_view(c.l1_weth_bridge_proxy_addr) == weth_side_bytes(
                        self.bridges.unwrap().weth,
                        true,
                    )
                    &&& opt_h160_view(c.l2_weth_bridge_addr) == weth_side_bytes(
                        self.bridges.unwrap().weth,
                        false,
                    )
                    &&& opt_h160_view(c.l2_testnet_paymaster_addr) == opt_addr_bytes(
                        self.l2.unwrap().testnet_paymaster_addr,
                    )
                    &&& c.l1_multicall3_addr@ == addr_bytes(
                        self.l1.unwrap().multicall3_addr.unwrap()@,
                    )
                    &&& opt_h160_view(c.base_token_addr) == opt_addr_bytes(
                        self.l1.unwrap().base_token_addr,
                    )
                    &&& opt_h256_view(c.base_token_asset_id) == opt_addr_bytes(
                        self.l1.unwrap().base_token_asset_id,
                    )
                    &&& opt_h160_view(c.predeployed_l2_weth_token_address) == opt_addr_bytes(
                        self.l1.unwrap().predeployed_l2_weth_token_address,
                    )
                    &&& opt_h160_view(c.user_facing_bridgehub_proxy_addr) == opt_addr_bytes(
                        self.user_facing_bridgehub,
                    )
                    &&& opt_h160_view(c.user_facing_diamond_proxy_addr) == opt_addr_bytes(
                        self.user_facing_diamond_proxy,
                    )
                    &&& opt_h160_view(c.chain_admin_addr) == opt_addr_bytes(
                        self.l1.unwrap().chain_admin_addr,
                    )
                    &&& c.settlement_layer == self.settlement_layer
                    &&& opt_h160_view(c.l2_da_validator_addr) == opt_addr_bytes(
                        self.l2.unwrap().da_validator_addr,
                    )
                },
                Err(e) => first_read_error(*self) == Some(e),
            },
    {
        let l1 = match &self.l1 {
            Some(l1) => l1,
            None => {
                return Err(ContractsReadError::Missing(ContractsField::L1));
            },
        };
        let l2 = match &self.l2 {
            Some(l2) => l2,
            None => {
                return Err(ContractsReadError::Missing(ContractsField::L2));
            },
        };
        let bridges = match &self.bridges {
            Some(b) => b,
            None => {
                return Err(ContractsReadError::Missing(ContractsField::Bridges));
            },
        };
        let shared = match &bridges.shared {
            Some(b) => b,
            None => {
                return Err(ContractsReadError::Missing(ContractsField::SharedBridge));
            },
        };
        let erc20 = match &bridges.erc20 {
            Some(b) => b,
            None => {
                return Err(ContractsReadError::Missing(ContractsField::Erc20Bridge));
            },
        };
        let ecosystem_contracts = match &self.ecosystem_contracts {
            None => None,
            Some(pe) => {
                let bridgehub_proxy_addr = match parse_req_addr(
                    &pe.bridgehub_proxy_addr,
                    ContractsField::BridgehubProxyAddr,
                ) {
                    Ok(h) => h,
                    Err(e) => {
                        return Err(e);
                    },
                };
                let state_transition_proxy_addr = match parse_req_addr(
                    &pe.state_transition_proxy_addr,
                    ContractsField::StateTransitionProxyAddr,
                ) {
                    Ok(h) => h,
                    Err(e) => {
                        return Err(e);
                    },
                };
                let transparent_proxy_admin_addr = match parse_req_addr(
                    &pe.transparent_proxy_admin_addr,
                    ContractsField::TransparentProxyAdminAddr,
                ) {
                    Ok(h) => h,
                    Err(e) => {
                        return Err(e);
                    },
                };
                let l1_bytecodes_supplier_addr = match &pe.l1_bytecodes_supplier_addr {
                    None => None,
                    Some(s) => match parse_hex_bytes(s.as_str(), 20) {
                        Some(v) => Some(H160::from_vec(&v)),
                        None => {
                            // Excluded by the precondition: this field,
                            // when present, is well-formed.
                            proof {
                                assert(false);
                            }
                            None
                        },
                    },
                };
                Some(
                    EcosystemContracts {
                        bridgehub_proxy_addr,
                        state_transition_proxy_addr,
                        transparent_proxy_admin_addr,
                        l1_bytecodes_supplier_addr,
                    },
                )
            },
        };
        let governance_addr = match parse_req_addr(
            &l1.governance_addr,
            ContractsField::GovernanceAddr,
        ) {
            Ok(h) => h,
            Err(e) => {
                return Err(e);
            },
        };
        let verifier_addr = match parse_req_addr(&l1.verifier_addr, ContractsField::VerifierAddr) {
            Ok(h) => h,
            Err(e) => {
                return Err(e);
            },
        };
        let default_upgrade_addr = match parse_req_addr(
            &l1.default_upgrade_addr,
            ContractsField::DefaultUpgradeAddr,
        ) {
            Ok(h) => h,
            Err(e) => {
                return Err(e);
            },
        };
        let diamond_proxy_addr = match parse_req_addr(
            &l1.diamond_proxy_addr,
            ContractsField::DiamondProxyAddr,
        ) {
            Ok(h) => h,
            Err(e) => {
                return Err(e);
            },
        };
        let validator_timelock_addr = match parse_req_addr(
            &l1.validator_timelock_addr,
            ContractsField::ValidatorTimelockAddr,
        ) {
            Ok(h) => h,
            Err(e) => {
                return Err(e);
            },
        };
        let l1_erc20_bridge_proxy_addr = match parse_opt_addr(
            &erc20.l1_address,
            ContractsField::L1Erc20BridgeAddr,
        ) {
            Ok(h) => h,
            Err(e) => {
                return Err(e);
            },
        };
        let l2_erc20_bridge_addr = match parse_opt_addr(
            &erc20.l2_address,
            ContractsField::L2Erc20BridgeAddr,
        ) {
            Ok(h) => h,
            Err(e) => {
                return Err(e);
            },
        };
        let l1_shared_bridge_proxy_addr = match parse_opt_addr(
            &shared.l1_address,
            ContractsField::L1SharedBridgeAddr,
        ) {
            Ok(h) => h,
            Err(e) => {
                return Err(e);
            },
        };
        let l2_shared_bridge_addr = match parse_opt_addr(
            &shared.l2_address,
            ContractsField::L2SharedBridgeAddr,
        ) {
            Ok(h) => h,
            Err(e) => {
                return Err(e);
            },
        };
        let l2_legacy_shared_bridge_addr = match &l2.legacy_shared_bridge_addr {
            None => None,
            Some(s) => {
                if s.as_str().unicode_len() == 0 {
                    None
                } else {
                    match parse_hex_bytes(s.as_str(), 20) {
                        Some(v) => Some(H160::from_vec(&v)),
                        None => {
                            return Err(
                                ContractsReadError::Invalid(
                                    ContractsField::L2LegacySharedBridgeAddr,
                                ),
                            );
                        },
                    }
                }
            },
        };
        let l1_weth_bridge_proxy_addr = match &bridges.weth {
            None => None,
            Some(w) => match parse_opt_addr(&w.l1_address, ContractsField::L1WethBridgeAddr) {
                Ok(h) => h,
                Err(e) => {
                    return Err(e);
                },
            },
        };
        let l2_weth_bridge_addr = match &bridges.weth {
            None => None,
            Some(w) => match parse_opt_addr(&w.l2_address, ContractsField::L2WethBridgeAddr) {
                Ok(h) => h,
                Err(e) => {
                    return Err(e);
                },
            },
        };
        let l2_testnet_paymaster_addr = match parse_opt_addr(
            &l2.testnet_paymaster_addr,
            ContractsField::L2TestnetPaymasterAddr,
        ) {
            Ok(h) => h,
            Err(e) => {
                return Err(e);
            },
        };
        let l1_multicall3_addr = match parse_req_addr(
            &l1.multicall3_addr,
            ContractsField::Multicall3Addr,
        ) {
            Ok(h) => h,
            Err(e) => {
                return Err(e);
            },
        };
        let base_token_addr = match parse_opt_addr(
            &l1.base_token_addr,
            ContractsField::BaseTokenAddr,
        ) {
            Ok(h) => h,
            Err(e) => {
                return Err(e);
            },
        };
        let base_token_asset_id = match parse_opt_hash(
            &l1.base_token_asset_id,
            ContractsField::BaseTokenAssetId,
        ) {
            Ok(h) => h,
            Err(e) => {
                return Err(e);
            },
        };
        let predeployed_l2_weth_token_address = match parse_opt_addr(
            &l1.predeployed_l2_weth_token_address,
            ContractsField::PredeployedL2WethTokenAddr,
        ) {
            Ok(h) => h,
            Err(e) => {
                return Err(e);
            },
        };
        let user_facing_bridgehub_proxy_addr = match parse_opt_addr(
            &self.user_facing_bridgehub,
            ContractsField::UserFacingBridgehubAddr,
        ) {
            Ok(h) => h,
            Err(e) => {
                return Err(e);
            },
        };
        let user_facing_diamond_proxy_addr = match parse_opt_addr(
            &self.user_facing_diamond_proxy,
            ContractsField::UserFacingDiamondProxyAddr,
        ) {
            Ok(h) => h,
            Err(e) => {
                return Err(e);
            },
        };
        let chain_admin_addr = match parse_opt_addr(
            &l1.chain_admin_addr,
            ContractsField::ChainAdminAddr,
        ) {
            Ok(h) => h,
            Err(e) => {
                return Err(e);
            },
        };
        let l2_da_validator_addr = match parse_opt_addr(
            &l2.da_validator_addr,
            ContractsField::L2DaValidatorAddr,
        ) {
            Ok(h) => h,
            Err(e) => {
                return Err(e);
            },
        };
        Ok(
            ContractsConfig {
                ecosystem_contracts,
                governance_addr,
                verifier_addr,
                default_upgrade_addr,
                diamond_proxy_addr,
                validator_timelock_addr,
                l1_erc20_bridge_proxy_addr,
                l2_erc20_bridge_addr,
                l1_shared_bridge_proxy_addr,
                l2_shared_bridge_addr,
                l2_legacy_shared_bridge_addr,
                l1_weth_bridge_proxy_addr,
                l2_weth_bridge_addr,
                l2_testnet_paymaster_addr,
                l1_multicall3_addr,
                base_token_addr,
                base_token_asset_id,
                predeployed_l2_weth_token_address,
                user_facing_bridgehub_proxy_addr,
                user_facing_diamond_proxy_addr,
                chain_admin_addr,
                settlement_layer: self.settlement_layer,
                l2_da_validator_addr,
            },
        )
    }

    /// Renders a typed configuration back into wire form: every address
    /// as its `0x`-prefixed lowercase hex string, every record present.
    pub fn build(this: &ContractsConfig) -> (r: ProtoContracts)
        ensures
            r.l1 is Some,
            r.l2 is Some,
            r.bridges is Some,
            r.bridges.unwrap().shared is Some,
            r.bridges.unwrap().erc20 is Some,
            r.bridges.unwrap().weth is Some,
            (match (this.ecosystem_contracts, r.ecosystem_contracts) {
                (None, None) => true,
                (Some(ce), Some(pe)) => {
                    &&& opt_str_view(pe.bridgehub_proxy_addr) == Some(
                        hex_display(ce.bridgehub_proxy_addr@),
                    )
                    &&& opt_str_view(pe.state_transition_proxy_addr) == Some(
                        hex_display(ce.state_transition_proxy_addr@),
                    )
                    &&& opt_str_view(pe.transparent_proxy_admin_addr) == Some(
                        hex_display(ce.transparent_proxy_admin_addr@),
                    )
                    &&& opt_str_view(pe.l1_bytecodes_supplier_addr) == opt_addr_display(
                        ce.l1_bytecodes_supplier_addr,
                    )
                },
                _ => false,
            }),
            opt_str_view(r.l1.unwrap().governance_addr) == Some(
                hex_display(this.governance_addr@),
            ),
            opt_str_view(r.l1.unwrap().verifier_addr) == Some(hex_display(this.verifier_addr@)),
            opt_str_view(r.l1.unwrap().diamond_proxy_addr) == Some(
                hex_display(this.diamond_proxy_addr@),
            ),
            opt_str_view(r.l1.unwrap().validator_timelock_addr) == Some(
                hex_display(this.validator_timelock_addr@),
            ),
            opt_str_view(r.l1.unwrap().default_upgrade_addr) == Some(
                hex_display(this.default_upgrade_addr@),
            ),
            opt_str_view(r.l1.unwrap().multicall3_addr) == Some(
                hex_display(this.l1_multicall3_addr@),
            ),
            opt_str_view(r.l1.unwrap().base_token_addr) == opt_addr_display(this.base_token_addr),
            opt_str_view(r.l1.unwrap().base_token_asset_id) == opt_hash_display(
                this.base_token_asset_id,
            ),
            opt_str_view(r.l1.unwrap().chain_admin_addr) == opt_addr_display(
                this.chain_admin_addr,
            ),
            opt_str_view(r.l1.unwrap().predeployed_l2_weth_token_address) == opt_addr_display(
                this.predeployed_l2_weth_token_address,
            ),
            opt_str_view(r.l2.unwrap().testnet_paymaster_addr) == opt_addr_display(
                this.l2_testnet_paymaster_addr,
            ),
            opt_str_view(r.l2.unwrap().da_validator_addr) == opt_addr_display(
                this.l2_da_validator_addr,
            ),
            opt_str_view(r.l2.unwrap().legacy_shared_bridge_addr) == opt_addr_display(
                this.l2_legacy_shared_bridge_addr,
            ),
            opt_str_view(r.bridges.unwrap().shared.unwrap().l1_address) == opt_addr_display(
                this.l1_shared_bridge_proxy_addr,
            ),
            opt_str_view(r.bridges.unwrap().shared.unwrap().l2_address) == opt_addr_display(
                this.l2_shared_bridge_addr,
            ),
            opt_str_view(r.bridges.unwrap().erc20.unwrap().l1_address) == opt_addr_display(
                this.l1_erc20_bridge_proxy_addr,
            ),
            opt_str_view(r.bridges.unwrap().erc20.unwrap().l2_address) == opt_addr_display(
                this.l2_erc20_bridge_addr,
            ),
            opt_str_view(r.bridges.unwrap().weth.unwrap().l1_address) == opt_addr_display(
                this.l1_weth_bridge_proxy_addr,
            ),
            opt_str_view(r.bridges.unwrap().weth.unwrap().l2_address) == opt_addr_display(
                this.l2_weth_bridge_addr,
            ),
            opt_str_view(r.user_facing_bridgehub) == opt_addr_display(
                this.user_facing_bridgehub_proxy_addr,
            ),
            opt_str_view(r.user_facing_diamond_proxy) == opt_addr_display(
                this.user_facing_diamond_proxy_addr,
            ),
            r.settlement_layer == this.settlement_layer,
    {
        let ecosystem_contracts = match &this.ecosystem_contracts {
            None => None,
            Some(ce) => Some(
                ProtoEcosystemContracts {
                    bridgehub_proxy_addr: Some(format_hex(ce.bridgehub_proxy_addr.bytes.as_slice())),
                    state_transition_proxy_addr: Some(
                        format_hex(ce.state_transition_proxy_addr.bytes.as_slice()),
                    ),
                    transparent_proxy_admin_addr: Some(
                        format_hex(ce.transparent_proxy_admin_addr.bytes.as_slice()),
                    ),
                    l1_bytecodes_supplier_addr: build_opt_addr(&ce.l1_bytecodes_supplier_addr),
                },
            ),
        };
        let base_token_asset_id = match &this.base_token_asset_id {
            None => None,
            Some(h) => Some(format_hex(h.bytes.as_slice())),
        };
        ProtoContracts {
            ecosystem_contracts,
            l1: Some(
                ProtoL1 {
                    governance_addr: Some(format_hex(this.governance_addr.bytes.as_slice())),
                    verifier_addr: Some(format_hex(this.verifier_addr.bytes.as_slice())),
                    diamond_proxy_addr: Some(format_hex(this.diamond_proxy_addr.bytes.as_slice())),
                    validator_timelock_addr: Some(
                        format_hex(this.validator_timelock_addr.bytes.as_slice()),
                    ),
                    default_upgrade_addr: Some(
                        format_hex(this.default_upgrade_addr.bytes.as_slice()),
                    ),
                    multicall3_addr: Some(format_hex(this.l1_multicall3_addr.bytes.as_slice())),
                    base_token_addr: build_opt_addr(&this.base_token_addr),
                    base_token_asset_id,
                    chain_admin_addr: build_opt_addr(&this.chain_admin_addr),
                    predeployed_l2_weth_token_address: build_opt_addr(
                        &this.predeployed_l2_weth_token_address,
                    ),
                },
            ),
            l2: Some(
                ProtoL2 {
                    testnet_paymaster_addr: build_opt_addr(&this.l2_testnet_paymaster_addr),
                    da_validator_addr: build_opt_addr(&this.l2_da_validator_addr),
                    legacy_shared_bridge_addr: build_opt_addr(&this.l2_legacy_shared_bridge_addr),
                },
            ),
            bridges: Some(
                ProtoBridges {
                    shared: Some(
                        ProtoBridge {
                            l1_address: build_opt_addr(&this.l1_shared_bridge_proxy_addr),
                            l2_address: build_opt_addr(&this.l2_shared_bridge_addr),
                        },
                    ),
                    erc20: Some(
                        ProtoBridge {
                            l1_address: build_opt_addr(&this.l1_erc20_bridge_proxy_addr),
                            l2_address: build_opt_addr(&this.l2_erc20_bridge_addr),
                        },
                    ),
                    weth: Some(
                        ProtoBridge {
                            l1_address: build_opt_addr(&this.l1_weth_bridge_proxy_addr),
                            l2_address: build_opt_addr(&this.l2_weth_bridge_addr),
                        },
                    ),
                },
            ),
            user_facing_bridgehub: build_opt_addr(&this.user_facing_bridgehub_proxy_addr),
            user_facing_diamond_proxy: build_opt_addr(&this.user_facing_diamond_proxy_addr),
            settlement_layer: this.settlement_layer,
        }
    }
}

} // verus!
