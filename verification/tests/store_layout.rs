use era_core::abi::str_eq;
use era_core::keystore::AggregationRound;
use era_core::keystore::Keystore;
use era_core::keystore::ProverServiceDataKey;
use era_core::keystore::ProverServiceDataType;
use era_core::keystore::locate_data_dir;
use era_core::keystore::u64_to_decimal;
use era_core::keystore::u8_to_decimal;
use era_core::system_contracts::ContractLanguage;
use era_core::system_contracts::get_system_smart_contracts;
use era_core::system_contracts::system_contract_list;
use era_core::upgrades::old_zksync_contract;
use era_core::wallets::WalletCreation;
use era_core::wallets::WalletCreationError;
use era_core::wallets::WalletSource;
use era_core::wallets::localhost_wallet_plan;
use era_core::wallets::wallets_source;

fn keystore() -> Keystore {
    Keystore::new("/keys".to_string())
}

#[test]
fn decimal_rendering() {
    assert_eq!(u8_to_decimal(0), "0");
    assert_eq!(u8_to_decimal(7), "7");
    assert_eq!(u8_to_decimal(42), "42");
    assert_eq!(u8_to_decimal(255), "255");
    assert_eq!(u64_to_decimal(0), "0");
    assert_eq!(u64_to_decimal(10), "10");
    assert_eq!(u64_to_decimal(90017), "90017");
}

#[test]
fn artifact_names() {
    assert_eq!(
        ProverServiceDataKey::new(3, AggregationRound::BasicCircuits).name(),
        "basic_3"
    );
    assert_eq!(
        ProverServiceDataKey::new(5, AggregationRound::LeafAggregation).name(),
        "leaf_5"
    );
    assert_eq!(
        ProverServiceDataKey::new(2, AggregationRound::NodeAggregation).name(),
        "node"
    );
    assert_eq!(ProverServiceDataKey::snark().name(), "scheduler");
}

#[test]
fn artifact_paths() {
    let ks = keystore();
    assert_eq!(
        ks.get_file_path(
            ProverServiceDataKey::new(1, AggregationRound::BasicCircuits),
            ProverServiceDataType::VerificationKey,
        ),
        "/keys/verification_basic_1_key.json"
    );
    assert_eq!(
        ks.get_file_path(
            ProverServiceDataKey::new(1, AggregationRound::BasicCircuits),
            ProverServiceDataType::SetupData,
        ),
        "/keys/setup_basic_1_data.bin"
    );
    assert_eq!(ks.base_layer_vk_path(4), "/keys/verification_basic_4_key.json");
    assert_eq!(ks.recursive_layer_vk_path(2), "/keys/verification_node_key.json");
    assert_eq!(ks.recursive_layer_vk_path(1), "/keys/verification_scheduler_key.json");
    assert_eq!(ks.recursive_layer_vk_path(5), "/keys/verification_leaf_5_key.json");
    assert_eq!(ks.snark_vk_path(), "/keys/snark_verification_scheduler_key.json");
    assert_eq!(ks.commitments_path(), "/keys/commitments.json");
}

#[test]
fn node_hints_collapse_to_one_file() {
    let ks = keystore();
    let a = ks.finalization_hints_path(ProverServiceDataKey::new(9, AggregationRound::NodeAggregation));
    let b = ks.finalization_hints_path(ProverServiceDataKey::new(2, AggregationRound::NodeAggregation));
    assert_eq!(a, b);
    assert_eq!(a, "/keys/finalization_hints_node.bin");
}

#[test]
fn setup_path_override() {
    let ks = keystore().with_setup_path(Some("/setup".to_string()));
    assert_eq!(ks.get_base_path(), "/keys");
    assert_eq!(
        ks.get_file_path(
            ProverServiceDataKey::new(1, AggregationRound::BasicCircuits),
            ProverServiceDataType::SetupData,
        ),
        "/setup/setup_basic_1_data.bin"
    );
    let ks = keystore().with_setup_path(None);
    assert_eq!(
        ks.get_file_path(
            ProverServiceDataKey::new(1, AggregationRound::BasicCircuits),
            ProverServiceDataType::SetupData,
        ),
        "/keys/setup_basic_1_data.bin"
    );
}

#[test]
fn data_dir_location() {
    assert_eq!(
        locate_data_dir(Some("/ws/prover".to_string()), [false; 4]),
        Some("/ws/prover/data".to_string())
    );
    assert_eq!(
        locate_data_dir(None, [false, true, true, false]),
        Some("./data".to_string())
    );
    assert_eq!(locate_data_dir(None, [false; 4]), None);
}

#[test]
fn system_contract_table_and_filter() {
    let all = system_contract_list();
    assert_eq!(all.len(), 31);
    assert_eq!(all[21].name, "EvmGasManager");
    assert_eq!(all[0].name, "AccountCodeStorage");
    let mut a = [0u8; 20];
    a[18] = 0x80;
    a[19] = 0x02;
    assert_eq!(all[0].address.bytes, a);
    assert!(matches!(all[8].language, ContractLanguage::Yul));

    let with_evm = get_system_smart_contracts(true);
    assert_eq!(with_evm.len(), 31);
    let without_evm = get_system_smart_contracts(false);
    assert_eq!(without_evm.len(), 30);
    assert!(without_evm.iter().all(|c| c.name != "EvmGasManager"));
}

#[test]
fn schema_lookups() {
    let schema = old_zksync_contract();
    assert!(schema.event("ProposeTransparentUpgrade").is_some());
    assert!(schema.event("NewPriorityRequest").is_some());
    assert!(schema.event("NoSuchEvent").is_none());
    assert!(schema.function("executeUpgrade").is_some());
    assert!(schema.function("NoSuchFunction").is_none());
    assert!(str_eq("abc", "abc"));
    assert!(!str_eq("abc", "abd"));
    assert!(!str_eq("abc", "ab"));
}

#[test]
fn wallet_source_decision() {
    assert!(matches!(
        wallets_source(WalletCreation::Random, 1, None),
        Ok(WalletSource::Random)
    ));
    assert!(matches!(
        wallets_source(WalletCreation::Empty, 1, None),
        Ok(WalletSource::Empty)
    ));
    assert!(matches!(
        wallets_source(WalletCreation::Localhost, 5, None),
        Ok(WalletSource::Localhost { id: 5 })
    ));
    match wallets_source(WalletCreation::InFile, 1, Some("/w.yaml".to_string())) {
        Ok(WalletSource::FromFile { path }) => assert_eq!(path, "/w.yaml"),
        other => panic!("unexpected: {:?}", other.is_ok()),
    }
    assert!(matches!(
        wallets_source(WalletCreation::InFile, 1, None),
        Err(WalletCreationError::MissingWalletPath)
    ));
}

#[test]
fn localhost_wallet_plan_paths() {
    let plan = localhost_wallet_plan(5);
    assert_eq!(plan.base_path, "m/44'/60'/0'/0/5");
    assert_eq!(plan.deployer_index, 0);
    assert_eq!(plan.operator_index, 1);
    assert_eq!(plan.blob_operator_index, 2);
    assert_eq!(plan.fee_account_index, 3);
    assert_eq!(plan.governor_index, 4);
    assert_eq!(plan.token_multiplier_setter_index, 5);
}
