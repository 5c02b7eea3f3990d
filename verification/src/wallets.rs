//! Wallet creation decisions.
//!
//! A chain's wallets can be freshly random, empty, derived from the
//! shared test mnemonic by the chain's id, or read from a file. The
//! decision which source to use — and the derivation paths of the
//! localhost wallets — is made here; drawing randomness, deriving keys
//! from the mnemonic and reading files happen outside the verified
//! library.

use vstd::prelude::*;
use vstd::string::StringExecFns;

use crate::keystore::dec_digits;
use crate::keystore::u64_to_decimal;

verus! {

/// How a chain's wallets are to be created.
#[derive(Clone, Copy, Debug, PartialEq, Eq, Structural)]
pub enum WalletCreation {
    /// Fresh random wallets.
    Random,
    /// No wallets.
    Empty,
    /// Wallets derived from the shared test mnemonic by chain id.
    Localhost,
    /// Wallets read from a given file.
    InFile,
}

/// Where the wallets come from, resolved against the inputs at hand.
pub enum WalletSource {
    Random,
    Empty,
    Localhost { id: u32 },
    FromFile { path: String },
}

/// A wallet-creation failure.
#[derive(Clone, Copy, Debug, PartialEq, Eq)]
pub enum WalletCreationError {
    /// The in-file option was chosen without a wallet path.
    MissingWalletPath,
}

/// Decides where the wallets come from. The in-file option requires a
/// wallet path; every other option always resolves.
pub fn wallets_source(
    wallet_creation: WalletCreation,
    id: u32,
    initial_wallet_path: Option<String>,
) -> (r: Result<WalletSource, WalletCreationError>)
    ensures
        match wallet_creation {
            WalletCreation::Random => r matches Ok(s) && s is Random,
            WalletCreation::Empty => r matches Ok(s) && s is Empty,
            WalletCreation::Localhost => r matches Ok(s) && (s matches WalletSource::Localhost {
                id: i,
            } && i == id),
            WalletCreation::InFile => match initial_wallet_path {
                Some(p) => r matches Ok(s) && (s matches WalletSource::FromFile { path } && path@
                    == p@),
                None => r == Err::<WalletSource, WalletCreationError>(
                    WalletCreationError::MissingWalletPath,
                ),
            },
        },
{
    match wallet_creation {
        WalletCreation::Random => Ok(WalletSource::Random),
        WalletCreation::Empty => Ok(WalletSource::Empty),
        WalletCreation::Localhost => Ok(WalletSource::Localhost { id }),
        WalletCreation::InFile => match initial_wallet_path {
            Some(path) => Ok(WalletSource::FromFile { path }),
            None => Err(WalletCreationError::MissingWalletPath),
        },
    }
}

/// The derivation-path plan of the localhost wallets of one chain: the
/// chain's derivation base path, and the key index assigned to each
/// role, in the fixed order the roles are derived.
pub struct LocalhostWalletPlan {
    pub base_path: String,
    pub deployer_index: u32,
    pub operator_index: u32,
    pub blob_operator_index: u32,
    pub fee_account_index: u32,
    pub governor_index: u32,
    pub token_multiplier_setter_index: u32,
}

/// The derivation base path shared by the localhost test wallets.
pub fn wallet_base_path() -> (r: &'static str)
    ensures
        r@ == "m/44'/60'/0'/0"@,
{
    "m/44'/60'/0'/0"
}

/// The localhost wallet plan of a chain: the base path extended by the
/// chain id, and consecutive key indices for the six roles.
pub fn localhost_wallet_plan(id: u32) -> (r: LocalhostWalletPlan)
    ensures
        r.base_path@ == "m/44'/60'/0'/0"@ + "/"@ + dec_digits(id as nat),
        r.deployer_index == 0,
        r.operator_index == 1,
        r.blob_operator_index == 2,
        r.fee_account_index == 3,
        r.governor_index == 4,
        r.token_multiplier_setter_index == 5,
{
    let base = String::from_str(wallet_base_path()).concat("/").concat(
        u64_to_decimal(id as u64).as_str(),
    );
    LocalhostWalletPlan {
        base_path: base,
        deployer_index: 0,
        operator_index: 1,
        blob_operator_index: 2,
        fee_account_index: 3,
        governor_index: 4,
        token_multiplier_setter_index: 5,
    }
}

} // verus!
