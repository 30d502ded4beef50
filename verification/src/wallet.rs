use vstd::prelude::*;
use crate::config_file::{ConfigFile, Network};
use crate::descriptor::{generate_ephemeral_covenant_descriptor, spk_of_descriptor};
use crate::errors::CovenantError;
use crate::script::is_p2wsh_spk;

verus! {

#[verifier::external_type_specification]
#[verifier::external_body]
#[verifier::reject_recursive_types(D)]
pub struct ExWallet<D>(bdk::Wallet<D>);

#[verifier::external_type_specification]
#[verifier::external_body]
pub struct ExMemoryDatabase(bdk::database::MemoryDatabase);

/// What miniscript's `max_satisfaction_weight` computes for a descriptor: a
/// conservative witness-weight bound, a function of the descriptor alone.
pub uninterp spec fn satisfaction_weight_of(desc: Seq<char>) -> nat;

/// The descriptor-driven wallet that signs every child transaction. `desc` is
/// the private covenant descriptor the inner wallet was created from, `spk`
/// the single reusable covenant scriptPubKey and `sat_weight` the witness
/// weight bound the wallet derives from it; the chain contracts speak of
/// `spk` and `sat_weight`.
pub struct CovenantWallet {
    pub desc: String,
    pub spk: Vec<u8>,
    pub sat_weight: usize,
    pub inner: bdk::Wallet<bdk::database::MemoryDatabase>,
}

/// Relies on bdk's `Wallet::new` with an in-memory database, on
/// `Wallet::get_address` (for a descriptor with no wildcard the same address
/// is returned for every index, so the scriptPubKey read at construction is
/// a function of the descriptor alone) and on miniscript's
/// `max_satisfaction_weight` (likewise a function of the descriptor alone).
#[verifier::external_body]
fn new_covenant_wallet(desc: &String, network: Network) -> (r: Result<CovenantWallet, ()>)
    ensures
        r matches Ok(w) ==> w.desc@ == desc@ && w.spk@ == spk_of_descriptor(desc@)
            && w.sat_weight as nat == satisfaction_weight_of(desc@),
{
    let net = match network {
        Network::Signet => bdk::bitcoin::Network::Signet,
        Network::Testnet => bdk::bitcoin::Network::Testnet,
    };
    let db = bdk::database::MemoryDatabase::default();
    let inner = match bdk::Wallet::new(desc.as_str(), None, net, db) { Ok(w) => w, Err(_) => return Err(()) };
    let info = match inner.get_address(bdk::wallet::AddressIndex::New) { Ok(i) => i, Err(_) => return Err(()) };
    let spk = info.address.script_pubkey().to_bytes();
    let weight = inner.get_descriptor_for_keychain(bdk::KeychainKind::External).max_satisfaction_weight();
    match weight {
        Ok(sat_weight) => Ok(CovenantWallet { desc: desc.clone(), spk, sat_weight, inner }),
        Err(_) => Err(()),
    }
}

impl CovenantWallet {
    /// The single reusable covenant scriptPubKey, fixed at wallet creation.
    /// Repeated calls always agree.
    pub fn script_pubkey(&self) -> (r: Vec<u8>)
        ensures
            r@ == self.spk@,
    {
        crate::chain::copy_bytes(&self.spk)
    }

    /// The witness-weight bound handed to the transaction builder when the
    /// parent covenant output is added as a foreign UTXO, fixed at wallet
    /// creation.
    pub fn satisfaction_weight(&self) -> (r: usize)
        ensures
            r == self.sat_weight,
    {
        self.sat_weight
    }
}

/// Derive an ephemeral covenant key and load the wallet that signs with it.
/// Returns the wallet and the public descriptor that is persisted for
/// downstream consumers; both derive the same covenant scriptPubKey.
pub fn load_convenant_wallet(cfg: &ConfigFile) -> (r: Result<(CovenantWallet, String), CovenantError>)
    ensures
        (cfg.network@ != "signet"@ && cfg.network@ != "testnet"@) <==> (r matches Err(e)
            && e == CovenantError::UnsupportedNetwork),
        r matches Ok(p) ==> p.0.spk@ == spk_of_descriptor(p.0.desc@) && p.0.spk@
            == spk_of_descriptor(p.1@) && is_p2wsh_spk(p.0.spk@) && p.0.sat_weight as nat
            == satisfaction_weight_of(p.0.desc@),
{
    let network = match cfg.get_network() {
        Ok(n) => n,
        Err(_) => {
            return Err(CovenantError::UnsupportedNetwork);
        },
    };
    let descs = generate_ephemeral_covenant_descriptor(network);
    match new_covenant_wallet(&descs.private_desc, network) {
        Ok(wallet) => Ok((wallet, descs.public_desc)),
        Err(_) => Err(CovenantError::DescriptorRejected),
    }
}

} // verus!
