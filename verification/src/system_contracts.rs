//! The built-in system contract deployment set.
//!
//! The set is an immutable table: for each contract its artifact
//! directory prefix, its name, the address it is deployed at, and its
//! source language. Reading the compiled bytecode of each entry is file
//! input/output and lives outside the verified library; this module
//! decides which entries are deployed.

use vstd::prelude::*;

use crate::abi::str_eq;
use crate::hash::H160;

verus! {

/// The language a system contract is written in, which decides where its
/// compiled artifact lives.
#[derive(Clone, Copy, Debug, PartialEq, Eq, Structural)]
pub enum ContractLanguage {
    Sol,
    Yul,
}

/// One entry of the deployment set.
pub struct SystemContractSource {
    /// The artifact directory prefix, empty for the default location.
    pub path_prefix: &'static str,
    /// The contract's name.
    pub name: &'static str,
    /// The address the contract is deployed at.
    pub address: H160,
    /// The contract's source language.
    pub language: ContractLanguage,
}

/// The 20-byte address whose numeric value is `n`.
pub open spec fn spec_addr(n: u32) -> Seq<u8> {
    Seq::new(
        20,
        |i: int|
            if i == 19 {
                (n % 256) as u8
            } else if i == 18 {
                ((n / 256) % 256) as u8
            } else if i == 17 {
                ((n / 65536) % 256) as u8
            } else {
                0u8
            },
    )
}

/// The address with the given small numeric value, as system contract
/// addresses are assigned.
pub fn addr(n: u32) -> (r: H160)
    requires
        n < 0x1000000,
    ensures
        r@ == spec_addr(n),
{
    let mut bytes = [0u8; 20];
    bytes[19] = (n % 256) as u8;
    bytes[18] = ((n / 256) % 256) as u8;
    bytes[17] = ((n / 65536) % 256) as u8;
    let r = H160 { bytes };
    proof {
        assert(r@ =~= spec_addr(n));
    }
    r
}

/// Builds one entry.
fn entry(
    path_prefix: &'static str,
    name: &'static str,
    address_value: u32,
    language: ContractLanguage,
) -> (r: SystemContractSource)
    requires
        address_value < 0x1000000,
    ensures
        r.path_prefix@ == path_prefix@,
        r.name@ == name@,
        r.address@ == spec_addr(address_value),
        r.language == language,
{
    SystemContractSource { path_prefix, name, address: addr(address_value), language }
}

/// The full deployment table, in deployment order.
pub fn system_contract_list() -> (r: Vec<SystemContractSource>)
    ensures
        r@.len() == 31,
        r@[21].name@ == "EvmGasManager"@,
        forall|i: int|
            0 <= i < r@.len() && i != 21 ==> (#[trigger] r@[i]).name@ != "EvmGasManager"@,
{
    let mut list: Vec<SystemContractSource> = Vec::new();
    list.push(entry("", "AccountCodeStorage", 0x8002, ContractLanguage::Sol));
    list.push(entry("", "NonceHolder", 0x8003, ContractLanguage::Sol));
    list.push(entry("", "KnownCodesStorage", 0x8004, ContractLanguage::Sol));
    list.push(entry("", "ImmutableSimulator", 0x8005, ContractLanguage::Sol));
    list.push(entry("", "ContractDeployer", 0x8006, ContractLanguage::Sol));
    list.push(entry("", "L1Messenger", 0x8008, ContractLanguage::Sol));
    list.push(entry("", "MsgValueSimulator", 0x8009, ContractLanguage::Sol));
    list.push(entry("", "L2BaseToken", 0x800a, ContractLanguage::Sol));
    list.push(entry("precompiles/", "Keccak256", 0x8010, ContractLanguage::Yul));
    list.push(entry("precompiles/", "SHA256", 0x0002, ContractLanguage::Yul));
    list.push(entry("precompiles/", "Ecrecover", 0x0001, ContractLanguage::Yul));
    list.push(entry("precompiles/", "EcAdd", 0x0006, ContractLanguage::Yul));
    list.push(entry("precompiles/", "EcMul", 0x0007, ContractLanguage::Yul));
    list.push(entry("precompiles/", "EcPairing", 0x0008, ContractLanguage::Yul));
    list.push(entry("precompiles/", "P256Verify", 0x0100, ContractLanguage::Yul));
    list.push(entry("precompiles/", "CodeOracle", 0x8012, ContractLanguage::Yul));
    list.push(entry("", "SystemContext", 0x800b, ContractLanguage::Sol));
    list.push(entry("", "EventWriter", 0x800d, ContractLanguage::Yul));
    list.push(entry("", "BootloaderUtilities", 0x800c, ContractLanguage::Sol));
    list.push(entry("", "Compressor", 0x800e, ContractLanguage::Sol));
    list.push(entry("", "ComplexUpgrader", 0x800f, ContractLanguage::Sol));
    list.push(entry("", "EvmGasManager", 0x8013, ContractLanguage::Yul));
    list.push(entry("", "EmptyContract", 0x0000, ContractLanguage::Sol));
    list.push(entry("", "EmptyContract", 0x8001, ContractLanguage::Sol));
    list.push(entry("", "PubdataChunkPublisher", 0x8011, ContractLanguage::Sol));
    list.push(entry("", "Create2Factory", 0x10000, ContractLanguage::Sol));
    list.push(entry("", "L2GenesisUpgrade", 0x10001, ContractLanguage::Sol));
    list.push(
        entry(
            "../../../l1-contracts/artifacts-zk/contracts/bridgehub/",
            "Bridgehub",
            0x10002,
            ContractLanguage::Sol,
        ),
    );
    list.push(
        entry(
            "../../../l1-contracts/artifacts-zk/contracts/bridgehub/",
            "MessageRoot",
            0x10005,
            ContractLanguage::Sol,
        ),
    );
    list.push(
        entry(
            "../../../l1-contracts/artifacts-zk/contracts/bridge/asset-router/",
            "L2AssetRouter",
            0x10003,
            ContractLanguage::Sol,
        ),
    );
    list.push(
        entry(
            "../../../l1-contracts/artifacts-zk/contracts/bridge/ntv/",
            "L2NativeTokenVault",
            0x10004,
            ContractLanguage::Sol,
        ),
    );
    proof {
        reveal_strlit("AccountCodeStorage");
        reveal_strlit("BootloaderUtilities");
        reveal_strlit("Bridgehub");
        reveal_strlit("CodeOracle");
        reveal_strlit("ComplexUpgrader");
        reveal_strlit("Compressor");
        reveal_strlit("ContractDeployer");
        reveal_strlit("Create2Factory");
        reveal_strlit("EcAdd");
        reveal_strlit("EcMul");
        reveal_strlit("EcPairing");
        reveal_strlit("Ecrecover");
        reveal_strlit("EmptyContract");
        reveal_strlit("EventWriter");
        reveal_strlit("EvmGasManager");
        reveal_strlit("ImmutableSimulator");
        reveal_strlit("Keccak256");
        reveal_strlit("KnownCodesStorage");
        reveal_strlit("L1Messenger");
        reveal_strlit("L2AssetRouter");
        reveal_strlit("L2BaseToken");
        reveal_strlit("L2GenesisUpgrade");
        reveal_strlit("L2NativeTokenVault");
        reveal_strlit("MessageRoot");
        reveal_strlit("MsgValueSimulator");
        reveal_strlit("NonceHolder");
        reveal_strlit("P256Verify");
        reveal_strlit("PubdataChunkPublisher");
        reveal_strlit("SHA256");
        reveal_strlit("SystemContext");
        assert(list@[0].name@.len() != "EvmGasManager"@.len());
        assert(list@[0].name@ != "EvmGasManager"@);
        assert(list@[1].name@.len() != "EvmGasManager"@.len());
        assert(list@[1].name@ != "EvmGasManager"@);
        assert(list@[2].name@.len() != "EvmGasManager"@.len());
        assert(list@[2].name@ != "EvmGasManager"@);
        assert(list@[3].name@.len() != "EvmGasManager"@.len());
        assert(list@[3].name@ != "EvmGasManager"@);
        assert(list@[4].name@.len() != "EvmGasManager"@.len());
        assert(list@[4].name@ != "EvmGasManager"@);
        assert(list@[5].name@.len() != "EvmGasManager"@.len());
        assert(list@[5].name@ != "EvmGasManager"@);
        assert(list@[6].name@.len() != "EvmGasManager"@.len());
        assert(list@[6].name@ != "EvmGasManager"@);
        assert(list@[7].name@.len() != "EvmGasManager"@.len());
        assert(list@[7].name@ != "EvmGasManager"@);
        assert(list@[8].name@.len() != "EvmGasManager"@.len());
        assert(list@[8].name@ != "EvmGasManager"@);
        assert(list@[9].name@.len() != "EvmGasManager"@.len());
        assert(list@[9].name@ != "EvmGasManager"@);
        assert(list@[10].name@.len() != "EvmGasManager"@.len());
        assert(list@[10].name@ != "EvmGasManager"@);
        assert(list@[11].name@.len() != "EvmGasManager"@.len());
        assert(list@[11].name@ != "EvmGasManager"@);
        assert(list@[12].name@.len() != "EvmGasManager"@.len());
        assert(list@[12].name@ != "EvmGasManager"@);
        assert(list@[13].name@.len() != "EvmGasManager"@.len());
        assert(list@[13].name@ != "EvmGasManager"@);
        assert(list@[14].name@.len() != "EvmGasManager"@.len());
        assert(list@[14].name@ != "EvmGasManager"@);
        assert(list@[15].name@.len() != "EvmGasManager"@.len());
        assert(list@[15].name@ != "EvmGasManager"@);
        assert(list@[16].name@[0] != "EvmGasManager"@[0]);
        assert(list@[16].name@ != "EvmGasManager"@);
        assert(list@[17].name@.len() != "EvmGasManager"@.len());
        assert(list@[17].name@ != "EvmGasManager"@);
        assert(list@[18].name@.len() != "EvmGasManager"@.len());
        assert(list@[18].name@ != "EvmGasManager"@);
        assert(list@[19].name@.len() != "EvmGasManager"@.len());
        assert(list@[19].name@ != "EvmGasManager"@);
        assert(list@[20].name@.len() != "EvmGasManager"@.len());
        assert(list@[20].name@ != "EvmGasManager"@);
        assert(list@[22].name@[1] != "EvmGasManager"@[1]);
        assert(list@[22].name@ != "EvmGasManager"@);
        assert(list@[23].name@[1] != "EvmGasManager"@[1]);
        assert(list@[23].name@ != "EvmGasManager"@);
        assert(list@[24].name@.len() != "EvmGasManager"@.len());
        assert(list@[24].name@ != "EvmGasManager"@);
        assert(list@[25].name@.len() != "EvmGasManager"@.len());
        assert(list@[25].name@ != "EvmGasManager"@);
        assert(list@[26].name@.len() != "EvmGasManager"@.len());
        assert(list@[26].name@ != "EvmGasManager"@);
        assert(list@[27].name@.len() != "EvmGasManager"@.len());
        assert(list@[27].name@ != "EvmGasManager"@);
        assert(list@[28].name@.len() != "EvmGasManager"@.len());
        assert(list@[28].name@ != "EvmGasManager"@);
        assert(list@[29].name@[0] != "EvmGasManager"@[0]);
        assert(list@[29].name@ != "EvmGasManager"@);
        assert(list@[30].name@.len() != "EvmGasManager"@.len());
        assert(list@[30].name@ != "EvmGasManager"@);
    }
    list
}

/// Whether an entry is deployed: every contract always, except the EVM
/// gas manager, which is deployed only when the EVM emulator is enabled.
pub open spec fn deployed(c: SystemContractSource, use_evm_emulator: bool) -> bool {
    use_evm_emulator || c.name@ != "EvmGasManager"@
}

/// The default set of system contracts to deploy: the embedded table,
/// with the EVM gas manager dropped unless the EVM emulator is enabled.
/// The caller pairs each entry with the compiled bytecode read from its
/// artifact location.
pub fn get_system_smart_contracts(use_evm_emulator: bool) -> (r: Vec<SystemContractSource>)
    ensures
        forall|i: int| 0 <= i < r@.len() ==> deployed(#[trigger] r@[i], use_evm_emulator),
        r@.len() == (if use_evm_emulator {
            31int
        } else {
            30int
        }),
{
    let list = system_contract_list();
    let n = list.len();
    let mut out: Vec<SystemContractSource> = Vec::new();
    let mut i: usize = 0;
    proof {
        reveal(Seq::filter);
        assert(list@.take(0) =~= Seq::<SystemContractSource>::empty());
        assert(out@ =~= system_contract_filter(list@.take(0), use_evm_emulator));
    }
    while i < n
        invariant
            i <= n,
            n == 31,
            list@.len() == 31,
            out@ == system_contract_filter(list@.take(i as int), use_evm_emulator),
            list@[21].name@ == "EvmGasManager"@,
            forall|j: int|
                0 <= j < list@.len() && j != 21 ==> (#[trigger] list@[j]).name@
                    != "EvmGasManager"@,
            forall|j: int| 0 <= j < out@.len() ==> deployed(#[trigger] out@[j], use_evm_emulator),
            out@.len() == (if use_evm_emulator || i <= 21 {
                i as int
            } else {
                i - 1
            }),
        decreases n - i,
    {
        let keep = use_evm_emulator || !str_eq(list[i].name, "EvmGasManager");
        proof {
            reveal(Seq::filter);
            assert(list@.take(i + 1).drop_last() =~= list@.take(i as int));
            assert(list@.take(i + 1).last() == list@[i as int]);
            assert(keep == deployed(list@[i as int], use_evm_emulator));
            if i != 21 {
                assert(list@[i as int].name@ != "EvmGasManager"@);
                assert(keep);
            }
        }
        if keep {
            let c = SystemContractSource {
                path_prefix: list[i].path_prefix,
                name: list[i].name,
                address: list[i].address,
                language: list[i].language,
            };
            out.push(c);
            proof {
                assert(c == list@[i as int]);
                assert(out@ =~= system_contract_filter(list@.take(i + 1), use_evm_emulator));
            }
        }
        i += 1;
    }
    proof {
        assert(list@.take(n as int) =~= list@);
    }
    out
}

/// The table entries that are deployed, in table order.
pub open spec fn system_contract_filter(
    list: Seq<SystemContractSource>,
    use_evm_emulator: bool,
) -> Seq<SystemContractSource> {
    list.filter(|c: SystemContractSource| deployed(c, use_evm_emulator))
}

} // verus!
