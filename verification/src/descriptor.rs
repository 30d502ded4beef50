use vstd::prelude::*;
use vstd::string::StringExecFns;
use crate::config_file::Network;
use crate::script::is_p2wsh_spk;

verus! {

/// The descriptor template: `wsh(and_v(v:pk(<key>),older(1)))`. The `older(1)`
/// clause is a one-block relative timelock (BIP-68); the `wsh` wrapper makes
/// the scriptPubKey a P2WSH program.
pub open spec fn descriptor_for(key: Seq<char>) -> Seq<char> {
    "wsh(and_v(v:pk("@ + key + "),older(1)))"@
}

/// What the wallet derives from a descriptor: for a descriptor with no
/// wildcard the scriptPubKey is a function of the descriptor string alone.
pub uninterp spec fn spk_of_descriptor(desc: Seq<char>) -> Seq<u8>;

/// A lowercase hexadecimal digit.
pub open spec fn is_lower_hex_digit(c: char) -> bool {
    (48 <= c as u32 && c as u32 <= 57) || (97 <= c as u32 && c as u32 <= 102)
}

/// A string of lowercase hexadecimal digits.
pub open spec fn all_lower_hex_digits(s: Seq<char>) -> bool {
    forall|i: int| 0 <= i < s.len() ==> is_lower_hex_digit(#[trigger] s[i])
}

/// An ephemeral covenant key, drawn fresh for every run and never persisted:
/// the secret as WIF, the compressed public key as hex.
pub struct CovenantKey {
    pub wif: String,
    pub pubkey_hex: String,
}

/// The two parallel forms of the covenant descriptor. The private form signs;
/// the public form substitutes `public_key_hex`, the compressed public key,
/// into the template, and is persisted for downstream consumers.
pub struct CovenantDescriptors {
    pub private_desc: String,
    pub public_desc: String,
    pub public_key_hex: String,
}

/// Relies on secp256k1 through bdk: `SecretKey::new` draws a fresh random key,
/// `PrivateKey::to_wif` encodes it for the network, and the compressed public
/// key (33 bytes, so 66 lowercase hex digits) is derived from the same
/// secret. A miniscript `pk()` fragment compiles to the same script for a
/// private key and for its own public key, so the descriptors built from the
/// two encodings share one scriptPubKey, and a `wsh` descriptor's
/// scriptPubKey is a 34-byte P2WSH program.
#[verifier::external_body]
fn fresh_covenant_key(network: Network) -> (r: CovenantKey)
    ensures
        r.pubkey_hex@.len() == 66,
        all_lower_hex_digits(r.pubkey_hex@),
        spk_of_descriptor(descriptor_for(r.wif@)) == spk_of_descriptor(
            descriptor_for(r.pubkey_hex@),
        ),
        is_p2wsh_spk(spk_of_descriptor(descriptor_for(r.wif@))),
{
    let net = match network {
        Network::Signet => bdk::bitcoin::Network::Signet,
        Network::Testnet => bdk::bitcoin::Network::Testnet,
    };
    let sk = bdk::bitcoin::secp256k1::SecretKey::new(&mut bdk::bitcoin::secp256k1::rand::thread_rng());
    let wif = bdk::bitcoin::PrivateKey::new(sk, net).to_wif();
    let curve = bdk::bitcoin::secp256k1::Secp256k1::new();
    let public_key = bdk::bitcoin::secp256k1::PublicKey::from_secret_key(&curve, &sk);
    let pubkey_hex = bdk::bitcoin::hashes::hex::ToHex::to_hex(&public_key.serialize()[..]);
    CovenantKey { wif, pubkey_hex }
}

/// Substitute a key into the descriptor template.
pub fn covenant_descriptor_string(key: &String) -> (r: String)
    ensures
        r@ == descriptor_for(key@),
{
    let d = String::from_str("wsh(and_v(v:pk(");
    let d = d.concat(key.as_str());
    d.concat("),older(1)))")
}

/// Draw an ephemeral key and emit the private and public covenant
/// descriptors. Both strings have the template shape
/// `wsh(and_v(v:pk(<key>),older(1)))` — the public one around the 66 hex
/// digits of the compressed public key — and the two always derive the same
/// scriptPubKey, a P2WSH program.
pub fn generate_ephemeral_covenant_descriptor(network: Network) -> (r: CovenantDescriptors)
    ensures
        r.public_desc@ == descriptor_for(r.public_key_hex@),
        r.public_key_hex@.len() == 66,
        all_lower_hex_digits(r.public_key_hex@),
        exists|k: Seq<char>| r.private_desc@ == #[trigger] descriptor_for(k),
        spk_of_descriptor(r.private_desc@) == spk_of_descriptor(r.public_desc@),
        is_p2wsh_spk(spk_of_descriptor(r.private_desc@)),
{
    let key = fresh_covenant_key(network);
    let private_desc = covenant_descriptor_string(&key.wif);
    let public_desc = covenant_descriptor_string(&key.pubkey_hex);
    proof {
        assert(private_desc@ == descriptor_for(key.wif@));
    }
    CovenantDescriptors { private_desc, public_desc, public_key_hex: key.pubkey_hex }
}

} // verus!
