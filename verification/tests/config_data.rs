use era_core::configs::ENConfig;
use era_core::configs::FriProverGatewayConfig;
use era_core::configs::L1BatchCommitmentMode;
use era_core::contracts_config::ContractsConfig;
use era_core::contracts_config::ContractsField;
use era_core::contracts_config::ContractsReadError;
use era_core::contracts_config::EcosystemContracts;
use era_core::contracts_config::ProtoBridge;
use era_core::contracts_config::ProtoBridges;
use era_core::contracts_config::ProtoContracts;
use era_core::contracts_config::ProtoL1;
use era_core::contracts_config::ProtoL2;
use era_core::hash::H160;
use era_core::hash::H256;
use era_core::hex::format_hex;
use era_core::hex::parse_hex_bytes;

fn addr_str(b: u8) -> String {
    let mut s = String::from("0x");
    for _ in 0..20 {
        s.push_str(&format!("{:02x}", b));
    }
    s
}

fn hash_str(b: u8) -> String {
    let mut s = String::from("0x");
    for _ in 0..32 {
        s.push_str(&format!("{:02x}", b));
    }
    s
}

fn minimal_proto() -> ProtoContracts {
    ProtoContracts {
        ecosystem_contracts: None,
        l1: Some(ProtoL1 {
            governance_addr: Some(addr_str(0x11)),
            verifier_addr: Some(addr_str(0x22)),
            diamond_proxy_addr: Some(addr_str(0x33)),
            validator_timelock_addr: Some(addr_str(0x44)),
            default_upgrade_addr: Some(addr_str(0x55)),
            multicall3_addr: Some(addr_str(0x66)),
            base_token_addr: None,
            base_token_asset_id: None,
            chain_admin_addr: None,
            predeployed_l2_weth_token_address: None,
        }),
        l2: Some(ProtoL2 {
            testnet_paymaster_addr: None,
            da_validator_addr: None,
            legacy_shared_bridge_addr: Some(String::new()),
        }),
        bridges: Some(ProtoBridges {
            shared: Some(ProtoBridge { l1_address: Some(addr_str(0x77)), l2_address: None }),
            erc20: Some(ProtoBridge { l1_address: None, l2_address: Some(addr_str(0x88)) }),
            weth: None,
        }),
        user_facing_bridgehub: None,
        user_facing_diamond_proxy: None,
        settlement_layer: Some(9),
    }
}

#[test]
fn reads_a_minimal_wire_config() {
    let c = minimal_proto().read().unwrap();
    assert_eq!(c.governance_addr, H160 { bytes: [0x11; 20] });
    assert_eq!(c.verifier_addr, H160 { bytes: [0x22; 20] });
    assert_eq!(c.diamond_proxy_addr, H160 { bytes: [0x33; 20] });
    assert_eq!(c.validator_timelock_addr, H160 { bytes: [0x44; 20] });
    assert_eq!(c.default_upgrade_addr, H160 { bytes: [0x55; 20] });
    assert_eq!(c.l1_multicall3_addr, H160 { bytes: [0x66; 20] });
    assert_eq!(c.l1_shared_bridge_proxy_addr, Some(H160 { bytes: [0x77; 20] }));
    assert_eq!(c.l2_erc20_bridge_addr, Some(H160 { bytes: [0x88; 20] }));
    assert_eq!(c.l1_erc20_bridge_proxy_addr, None);
    // The empty legacy bridge string counts as absent.
    assert_eq!(c.l2_legacy_shared_bridge_addr, None);
    assert_eq!(c.l1_weth_bridge_proxy_addr, None);
    assert_eq!(c.ecosystem_contracts.is_some(), false);
    assert_eq!(c.settlement_layer, Some(9));
}

#[test]
fn reads_ecosystem_and_hash_fields() {
    let mut p = minimal_proto();
    p.ecosystem_contracts = Some(era_core::contracts_config::ProtoEcosystemContracts {
        bridgehub_proxy_addr: Some(addr_str(0xA1)),
        state_transition_proxy_addr: Some(addr_str(0xA2)),
        transparent_proxy_admin_addr: Some(addr_str(0xA3)),
        l1_bytecodes_supplier_addr: Some(addr_str(0xA4)),
    });
    p.l1.as_mut().unwrap().base_token_asset_id = Some(hash_str(0xB1));
    let c = p.read().unwrap();
    let e = c.ecosystem_contracts.unwrap();
    assert_eq!(e.bridgehub_proxy_addr, H160 { bytes: [0xA1; 20] });
    assert_eq!(e.state_transition_proxy_addr, H160 { bytes: [0xA2; 20] });
    assert_eq!(e.transparent_proxy_admin_addr, H160 { bytes: [0xA3; 20] });
    assert_eq!(e.l1_bytecodes_supplier_addr, Some(H160 { bytes: [0xA4; 20] }));
    assert_eq!(c.base_token_asset_id, Some(H256 { bytes: [0xB1; 32] }));
}

#[test]
fn missing_records_are_reported_in_order() {
    let mut p = minimal_proto();
    p.l1 = None;
    assert_eq!(p.read(), Err(ContractsReadError::Missing(ContractsField::L1)));
    let mut p = minimal_proto();
    p.l2 = None;
    assert_eq!(p.read(), Err(ContractsReadError::Missing(ContractsField::L2)));
    let mut p = minimal_proto();
    p.bridges = None;
    assert_eq!(p.read(), Err(ContractsReadError::Missing(ContractsField::Bridges)));
    let mut p = minimal_proto();
    p.bridges.as_mut().unwrap().shared = None;
    assert_eq!(p.read(), Err(ContractsReadError::Missing(ContractsField::SharedBridge)));
    let mut p = minimal_proto();
    p.l1.as_mut().unwrap().governance_addr = None;
    assert_eq!(p.read(), Err(ContractsReadError::Missing(ContractsField::GovernanceAddr)));
}

#[test]
fn malformed_addresses_are_reported() {
    let mut p = minimal_proto();
    p.l1.as_mut().unwrap().verifier_addr = Some("0x1234".to_string());
    assert_eq!(p.read(), Err(ContractsReadError::Invalid(ContractsField::VerifierAddr)));
    let mut p = minimal_proto();
    p.l2.as_mut().unwrap().legacy_shared_bridge_addr = Some("nonsense".to_string());
    assert_eq!(
        p.read(),
        Err(ContractsReadError::Invalid(ContractsField::L2LegacySharedBridgeAddr))
    );
}

#[test]
fn build_then_read_round_trips() {
    let c = minimal_proto().read().unwrap();
    let wire = ProtoContracts::build(&c);
    assert_eq!(
        wire.l1.as_ref().unwrap().governance_addr.as_deref(),
        Some(addr_str(0x11).as_str())
    );
    let again: ContractsConfig = wire.read().unwrap();
    assert_eq!(again.governance_addr, c.governance_addr);
    assert_eq!(again.l1_shared_bridge_proxy_addr, c.l1_shared_bridge_proxy_addr);
    assert_eq!(again.l2_erc20_bridge_addr, c.l2_erc20_bridge_addr);
    assert_eq!(again.settlement_layer, c.settlement_layer);
    assert_eq!(again.base_token_addr, c.base_token_addr);
}

#[test]
fn hex_parsing_and_formatting() {
    let v = parse_hex_bytes("0x00ff10aabbccddeeff00112233445566778899ab", 20).unwrap();
    assert_eq!(v[0], 0x00);
    assert_eq!(v[1], 0xff);
    assert_eq!(v[19], 0xab);
    assert_eq!(parse_hex_bytes("00ff", 2), None);
    assert_eq!(parse_hex_bytes("0x00fg", 2), None);
    assert_eq!(parse_hex_bytes("0x00ff", 3), None);
    assert_eq!(format_hex(&[0u8, 255u8, 16u8]), "0x00ff10");
    let upper = parse_hex_bytes("0xAB", 1).unwrap();
    assert_eq!(upper[0], 0xAB);
    assert_eq!(format_hex(&v), "0x00ff10aabbccddeeff00112233445566778899ab");
}

#[test]
fn config_defaults() {
    let g = FriProverGatewayConfig::with_defaults("http://gateway".to_string());
    assert_eq!(g.api_url, "http://gateway");
    assert_eq!(g.api_poll_duration_secs, 1000);
    assert_eq!(g.prometheus_listener_port, 3314);
    assert_eq!(ENConfig::default_main_node_rate_limit_rps(), 100);
    assert_eq!(ENConfig::default_commitment_mode(), L1BatchCommitmentMode::Rollup);
}
