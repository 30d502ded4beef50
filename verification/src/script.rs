use vstd::prelude::*;

verus! {

/// Bytes of the raw bump (anchor) witness script: `OP_0 OP_CSV OP_1ADD`.
pub open spec fn bump_script_bytes() -> Seq<u8> {
    seq![0x00u8, 0xb2u8, 0x8bu8]
}

/// What `sha256` returns: the digest is a function of the input bytes alone.
pub uninterp spec fn sha256_of(data: Seq<u8>) -> Seq<u8>;

/// A version-0 pay-to-witness-script-hash output script: `OP_0` followed by a
/// 32-byte push of the witness-script hash.
pub open spec fn p2wsh_of(witness_script: Seq<u8>) -> Seq<u8> {
    seq![0x00u8, 0x20u8] + sha256_of(witness_script)
}

/// Shape of every P2WSH scriptPubKey: 34 bytes, `OP_0 OP_PUSHBYTES_32 <hash>`.
pub open spec fn is_p2wsh_spk(s: Seq<u8>) -> bool {
    s.len() == 34 && s[0] == 0x00u8 && s[1] == 0x20u8
}

/// Relies on `bitcoin_hashes::sha256::Hash::hash` (through bdk): the 32-byte
/// SHA-256 digest of the input bytes.
#[verifier::external_body]
fn sha256(data: &Vec<u8>) -> (r: Vec<u8>)
    ensures
        r@ == sha256_of(data@),
        r@.len() == 32,
{
    let digest = <bdk::bitcoin::hashes::sha256::Hash as bdk::bitcoin::hashes::Hash>::hash(
        data.as_slice(),
    );
    <bdk::bitcoin::hashes::sha256::Hash as bdk::bitcoin::hashes::Hash>::into_inner(digest).to_vec()
}

/// Build the anchor witness script. With `add_op_3` the script is tagged by a
/// leading `OP_PUSHBYTES_3`; the chain builder always uses the untagged form.
pub fn build_bump_script(add_op_3: bool) -> (r: Vec<u8>)
    ensures
        !add_op_3 ==> r@ == bump_script_bytes(),
        add_op_3 ==> r@ == seq![0x03u8] + bump_script_bytes(),
{
    let mut script: Vec<u8> = Vec::new();
    if add_op_3 {
        script.push(0x03u8);
    }
    script.push(0x00u8);
    script.push(0xb2u8);
    script.push(0x8bu8);
    proof {
        if add_op_3 {
            assert(script@ =~= seq![0x03u8] + bump_script_bytes());
        } else {
            assert(script@ =~= bump_script_bytes());
        }
    }
    script
}

/// Wrap a witness script into its P2WSH scriptPubKey.
pub fn p2wsh_script_pubkey(witness_script: &Vec<u8>) -> (r: Vec<u8>)
    ensures
        r@ == p2wsh_of(witness_script@),
        is_p2wsh_spk(r@),
{
    let digest = sha256(witness_script);
    let mut spk: Vec<u8> = Vec::new();
    spk.push(0x00u8);
    spk.push(0x20u8);
    let mut i: usize = 0;
    while i < digest.len()
        invariant
            i <= digest.len(),
            digest@.len() == 32,
            digest@ == sha256_of(witness_script@),
            spk@ == seq![0x00u8, 0x20u8] + digest@.subrange(0, i as int),
        decreases digest.len() - i,
    {
        spk.push(digest[i]);
        proof {
            assert(spk@ =~= seq![0x00u8, 0x20u8] + digest@.subrange(0, i + 1));
        }
        i = i + 1;
    }
    proof {
        assert(spk@ =~= p2wsh_of(witness_script@));
    }
    spk
}

/// The scriptPubKey every bump output carries.
pub open spec fn bump_spk() -> Seq<u8> {
    p2wsh_of(bump_script_bytes())
}

/// Build the bump output's scriptPubKey: the P2WSH wrapping of the anchor script.
pub fn build_bump_spk() -> (r: Vec<u8>)
    ensures
        r@ == bump_spk(),
        is_p2wsh_spk(r@),
{
    let script = build_bump_script(false);
    p2wsh_script_pubkey(&script)
}

} // verus!
