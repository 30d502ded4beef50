use vstd::prelude::*;
use vstd::arithmetic::div_mod::{
    lemma_basic_div, lemma_div_plus_one, lemma_div_pos_is_pos, lemma_multiply_divide_lt,
};
use crate::config_file::ConfigFile;
use crate::errors::CovenantError;
use crate::script::{build_bump_spk, bump_spk, is_p2wsh_spk};
use crate::wallet::CovenantWallet;

verus! {

/// The relay policy floor for a P2WSH output: the transaction builder refuses
/// any recipient paid less than this many satoshis to such a script.
pub const P2WSH_DUST_FLOOR: u64 = 330;

/// One transaction output as the chain logic reads it: its value in satoshis
/// and its scriptPubKey bytes.
pub struct TxOutModel {
    pub value: u64,
    pub script_pubkey: Vec<u8>,
}

/// One transaction input: the consensus-serialised txid of the transaction it
/// spends, the output index, the nSequence value, and how many items its
/// witness stack carries (zero for an unsigned input).
pub struct TxInModel {
    pub prev_txid: Vec<u8>,
    pub prev_vout: u32,
    pub sequence: u32,
    pub witness_items: u64,
}

/// A transaction as the chain logic reads it. `txid` is the 32-byte
/// consensus-serialised transaction id and `raw` the consensus-serialised
/// transaction, exactly the two byte strings the chain store persists.
pub struct ChainTx {
    pub txid: Vec<u8>,
    pub version: i32,
    pub lock_time: u32,
    pub inputs: Vec<TxInModel>,
    pub outputs: Vec<TxOutModel>,
    pub raw: Vec<u8>,
}

/// One chain entry: a child transaction, keyed by the txid of the parent it
/// spends.
pub struct ChainEntry {
    pub prev_txid: Vec<u8>,
    pub tx: ChainTx,
}

/// The finite map `prev_txid -> child`, kept in insertion order; keys are
/// unique by construction since every child consumes exactly one parent.
pub struct ChainMap {
    pub entries: Vec<ChainEntry>,
}

/// `outs[i]` pays the covenant scriptPubKey and no other output does.
pub open spec fn unique_cov_at(outs: Seq<TxOutModel>, spk: Seq<u8>, i: int) -> bool {
    &&& 0 <= i < outs.len()
    &&& outs[i].script_pubkey@ == spk
    &&& forall|j: int| 0 <= j < outs.len() && j != i ==> outs[j].script_pubkey@ != spk
}

/// Exactly one output pays the covenant scriptPubKey.
pub open spec fn has_unique_cov(outs: Seq<TxOutModel>, spk: Seq<u8>) -> bool {
    exists|i: int| unique_cov_at(outs, spk, i)
}

/// The index of the unique covenant output.
pub open spec fn cov_index(outs: Seq<TxOutModel>, spk: Seq<u8>) -> int {
    choose|i: int| unique_cov_at(outs, spk, i)
}

/// The value carried by the unique covenant output of `tx`.
pub open spec fn cov_value_of(tx: ChainTx, spk: Seq<u8>) -> int {
    tx.outputs@[cov_index(tx.outputs@, spk)].value as int
}

/// The number of children the chain builder emits from a covenant output of
/// `s` satoshis: one child per iteration while the input covers dust and fee
/// and both freshly created outputs clear the relay dust floor, each
/// iteration shrinking the covenant value by `dust + fee`.
pub open spec fn spec_chain_len(s: int, dust: u64, fee: u64) -> nat
    decreases s,
    when dust + fee >= 1
{
    if s < dust + fee || s - dust - fee < P2WSH_DUST_FLOOR || dust < P2WSH_DUST_FLOOR {
        0
    } else {
        (1 + spec_chain_len(s - dust - fee, dust, fee)) as nat
    }
}

/// Everything the builder guarantees of a single chain entry whose parent
/// covenant output carried `s` satoshis at index `prev_vout` of the
/// transaction with id `prev_txid`.
pub open spec fn entry_ok(
    e: ChainEntry,
    prev_txid: Seq<u8>,
    prev_vout: int,
    s: int,
    cov_spk: Seq<u8>,
    dust: u64,
    fee: u64,
) -> bool {
    &&& e.prev_txid@ == prev_txid
    &&& e.tx.txid@.len() == 32
    &&& e.tx.version == 2
    &&& e.tx.lock_time == 0
    &&& e.tx.inputs@.len() == 1
    &&& e.tx.inputs@[0].prev_txid@ == prev_txid
    &&& e.tx.inputs@[0].prev_vout == prev_vout
    &&& e.tx.inputs@[0].sequence == 1
    &&& e.tx.inputs@[0].witness_items >= 1
    &&& e.tx.outputs@.len() == 2
    &&& has_unique_cov(e.tx.outputs@, cov_spk)
    &&& cov_value_of(e.tx, cov_spk) == s - dust - fee
    &&& e.tx.outputs@[1 - cov_index(e.tx.outputs@, cov_spk)].script_pubkey@ == bump_spk()
    &&& e.tx.outputs@[1 - cov_index(e.tx.outputs@, cov_spk)].value == dust
    &&& s >= dust + fee
    &&& s - dust - fee >= P2WSH_DUST_FLOOR
    &&& dust >= P2WSH_DUST_FLOOR
}

/// The parent of chain entry `i`: the previous child, or the funding
/// transaction for the first entry.
pub open spec fn parent_of(chain: Seq<ChainEntry>, funding: ChainTx, i: int) -> ChainTx {
    if i == 0 {
        funding
    } else {
        chain[i - 1].tx
    }
}

/// The full chain shape: entry `i` spends the covenant output of entry `i-1`
/// (of the funding transaction for `i == 0`), whose value is
/// `s0 - i*(dust+fee)` where `s0` is the funding covenant value.
pub open spec fn chain_ok(
    chain: Seq<ChainEntry>,
    funding: ChainTx,
    cov_spk: Seq<u8>,
    dust: u64,
    fee: u64,
) -> bool {
    forall|i: int|
        0 <= i < chain.len() ==> entry_ok(
            #[trigger] chain[i],
            parent_of(chain, funding, i).txid@,
            cov_index(parent_of(chain, funding, i).outputs@, cov_spk),
            cov_value_of(funding, cov_spk) - i * (dust + fee),
            cov_spk,
            dust,
            fee,
        )
}

/// Byte-for-byte equality of two byte vectors.
fn bytes_eq(a: &Vec<u8>, b: &Vec<u8>) -> (r: bool)
    ensures
        r == (a@ == b@),
{
    if a.len() != b.len() {
        return false;
    }
    let mut i: usize = 0;
    while i < a.len()
        invariant
            i <= a.len(),
            a@.len() == b@.len(),
            forall|j: int| 0 <= j < i ==> a@[j] == b@[j],
        decreases a.len() - i,
    {
        if a[i] != b[i] {
            return false;
        }
        i = i + 1;
    }
    proof {
        assert(a@ =~= b@);
    }
    true
}

/// Copy a byte vector.
pub(crate) fn copy_bytes(v: &Vec<u8>) -> (r: Vec<u8>)
    ensures
        r@ == v@,
{
    let mut r: Vec<u8> = Vec::new();
    let mut i: usize = 0;
    while i < v.len()
        invariant
            i <= v.len(),
            r@ == v@.subrange(0, i as int),
        decreases v.len() - i,
    {
        r.push(v[i]);
        proof {
            assert(r@ =~= v@.subrange(0, i + 1));
        }
        i = i + 1;
    }
    proof {
        assert(r@ =~= v@);
    }
    r
}

/// Locate the covenant output of a transaction: the unique output paying
/// `spk`. Returns nothing when no output, or more than one, matches; every
/// consumer must locate the covenant by script match, never by a fixed index.
pub fn find_covenant_vout(outputs: &Vec<TxOutModel>, spk: &Vec<u8>) -> (r: Option<usize>)
    ensures
        r matches Some(i) ==> unique_cov_at(outputs@, spk@, i as int) && i as int == cov_index(
            outputs@,
            spk@,
        ),
        r is None ==> !has_unique_cov(outputs@, spk@),
{
    let mut found: Option<usize> = None;
    let mut i: usize = 0;
    while i < outputs.len()
        invariant
            i <= outputs.len(),
            found matches Some(f) ==> f < i && outputs@[f as int].script_pubkey@ == spk@
                && (forall|j: int|
                    0 <= j < i && j != f ==> outputs@[j].script_pubkey@ != spk@),
            found is None ==> forall|j: int| 0 <= j < i ==> outputs@[j].script_pubkey@ != spk@,
        decreases outputs.len() - i,
    {
        if bytes_eq(&outputs[i].script_pubkey, spk) {
            if found.is_some() {
                proof {
                    let f = found->0;
                    assert forall|k: int| !unique_cov_at(outputs@, spk@, k) by {
                        if unique_cov_at(outputs@, spk@, k) {
                            assert(outputs@[f as int].script_pubkey@ == spk@);
                            assert(outputs@[i as int].script_pubkey@ == spk@);
                        }
                    }
                }
                return None;
            }
            found = Some(i);
        }
        i = i + 1;
    }
    match found {
        Some(f) => {
            proof {
                assert(unique_cov_at(outputs@, spk@, f as int));
                let c = cov_index(outputs@, spk@);
                assert(unique_cov_at(outputs@, spk@, c));
            }
            Some(f)
        },
        None => None,
    }
}

/// The three ways one build step can end.
pub enum BuildStep {
    /// The wallet produced and signed the child.
    Built(ChainTx),
    /// The builder refused an output under the relay dust floor: the normal
    /// termination signal of the chain.
    DustStop,
    /// Any other builder or signer failure: fatal.
    Failed,
}

#[verifier::external_type_specification]
#[verifier::external_body]
pub struct ExTransaction(bdk::bitcoin::Transaction);

#[verifier::external_type_specification]
#[verifier::external_body]
pub struct ExTxid(bdk::bitcoin::Txid);

#[verifier::external_type_specification]
#[verifier::external_body]
pub struct ExPartiallySignedTransaction(bdk::bitcoin::psbt::PartiallySignedTransaction);

#[verifier::external_type_specification]
#[verifier::external_body]
pub struct ExPsbtInput(bdk::bitcoin::psbt::Input);

/// How one attempt to assemble a child PSBT ends.
enum PsbtOutcome {
    Done(bdk::bitcoin::psbt::PartiallySignedTransaction),
    Dust,
    Fail,
}

/// Relies on rust-bitcoin's consensus decoding (through bdk) to rebuild a
/// transaction from its serialised bytes.
#[verifier::external_body]
fn decode_transaction(raw: &Vec<u8>) -> (r: Option<bdk::bitcoin::Transaction>)
{
    bdk::bitcoin::consensus::deserialize(raw.as_slice()).ok()
}

/// Relies on rust-bitcoin's consensus decoding (through bdk) to rebuild a
/// txid from its 32 serialised bytes.
#[verifier::external_body]
fn decode_txid(bytes: &Vec<u8>) -> (r: Option<bdk::bitcoin::Txid>)
{
    bdk::bitcoin::consensus::deserialize(bytes.as_slice()).ok()
}

/// Relies on bdk's `psbt::Input`: the PSBT input carrying the parent
/// transaction and the covenant output being spent, both of which bdk needs
/// to sign a foreign UTXO.
#[verifier::external_body]
fn foreign_utxo_input(
    parent: bdk::bitcoin::Transaction,
    input_value: u64,
    cov_script_pubkey: &Vec<u8>,
) -> (r: bdk::bitcoin::psbt::Input)
{
    let script_pubkey = bdk::bitcoin::Script::from(cov_script_pubkey.clone());
    let mut psbt_input = bdk::bitcoin::psbt::Input::default();
    psbt_input.non_witness_utxo = Some(parent);
    psbt_input.witness_utxo = Some(bdk::bitcoin::TxOut { value: input_value, script_pubkey });
    psbt_input
}

/// Relies on bdk's `TxBuilder`: one foreign UTXO, manual selection, current
/// height 0, an absolute fee, version 2, and the two recipients; `finish`
/// refuses a recipient under its script's dust floor.
#[verifier::external_body]
fn finish_child_psbt(
    convenant_wallet: &CovenantWallet,
    parent: bdk::bitcoin::Transaction,
    outpoint_txid: bdk::bitcoin::Txid,
    vout: u32,
    input_value: u64,
    satisfaction_weight: usize,
    bump_script_pubkey: &Vec<u8>,
    bump_value: u64,
    cov_script_pubkey: &Vec<u8>,
    cov_value: u64,
    fee: u64,
) -> (r: PsbtOutcome)
{
    let cov_script = bdk::bitcoin::Script::from(cov_script_pubkey.clone());
    let psbt_input = foreign_utxo_input(parent, input_value, cov_script_pubkey);
    let outpoint = bdk::bitcoin::OutPoint { txid: outpoint_txid, vout };
    let mut builder = convenant_wallet.inner.build_tx();
    if builder.add_foreign_utxo(outpoint, psbt_input, satisfaction_weight).is_err() { return PsbtOutcome::Fail; }
    builder.manually_selected_only().current_height(0).fee_absolute(fee).version(2);
    let bump_script = bdk::bitcoin::Script::from(bump_script_pubkey.clone());
    builder.set_recipients(vec![(bump_script, bump_value), (cov_script, cov_value)]);
    match builder.finish() {
        Ok((psbt, _)) => PsbtOutcome::Done(psbt),
        Err(bdk::Error::OutputBelowDustLimit(_)) => PsbtOutcome::Dust,
        Err(_) => PsbtOutcome::Fail,
    }
}

/// Relies on bdk's `Wallet::sign`, whose returned flag is true only when
/// every input's witness was finalised, and on `Psbt::extract_tx` to yield
/// the raw transaction. A child whose covenant input cannot be finalised is
/// refused here rather than handed on partially signed.
#[verifier::external_body]
fn sign_and_extract(
    convenant_wallet: &CovenantWallet,
    psbt: bdk::bitcoin::psbt::PartiallySignedTransaction,
) -> (r: Option<bdk::bitcoin::Transaction>)
{
    let mut psbt = psbt;
    match convenant_wallet.inner.sign(&mut psbt, bdk::SignOptions::default()) {
        Ok(true) => Some(psbt.extract_tx()),
        Ok(false) => None,
        Err(_) => None,
    }
}

/// Relies on rust-bitcoin's accessors and consensus encoding (through bdk) to
/// read a transaction out into plain values, field by field.
#[verifier::external_body]
fn chain_tx_model(t: &bdk::bitcoin::Transaction) -> (r: ChainTx)
{
    let txid = bdk::bitcoin::consensus::serialize(&t.txid());
    let raw = bdk::bitcoin::consensus::serialize(t);
    let inputs = t.input.iter().map(|i| TxInModel {
        prev_txid: bdk::bitcoin::consensus::serialize(&i.previous_output.txid),
        prev_vout: i.previous_output.vout,
        sequence: i.sequence.to_consensus_u32(),
        witness_items: i.witness.len() as u64,
    }).collect();
    let outputs = t.output.iter().map(|o| TxOutModel {
        value: o.value, script_pubkey: o.script_pubkey.to_bytes(),
    }).collect();
    ChainTx { txid, version: t.version, lock_time: t.lock_time.0, inputs, outputs, raw }
}

/// Relies on bdk's `TxBuilder` and `Wallet::sign` / `Psbt::extract_tx`
/// through the helpers above. Only the dust behaviour is assumed:
/// `finish` reports `OutputBelowDustLimit` only when a recipient's value is
/// under the 330-sat dust floor of a P2WSH script, and every success path
/// runs that check on both recipients first. Everything else claimed of a
/// built child (outputs, values, input, nSequence) is re-checked at run time
/// by the caller, which treats any deviation as fatal.
#[verifier::external_body]
fn build_child_tx(
    convenant_wallet: &CovenantWallet,
    parent_raw: &Vec<u8>,
    parent_txid: &Vec<u8>,
    vout: u32,
    input_value: u64,
    satisfaction_weight: usize,
    bump_script_pubkey: &Vec<u8>,
    bump_value: u64,
    cov_script_pubkey: &Vec<u8>,
    cov_value: u64,
    fee: u64,
) -> (r: BuildStep)
    requires
        is_p2wsh_spk(bump_script_pubkey@),
        is_p2wsh_spk(cov_script_pubkey@),
        parent_txid@.len() == 32,
        input_value == bump_value + cov_value + fee,
    ensures
        r is DustStop ==> bump_value < P2WSH_DUST_FLOOR || cov_value < P2WSH_DUST_FLOOR,
        bump_value < P2WSH_DUST_FLOOR || cov_value < P2WSH_DUST_FLOOR ==> !(r is Built),
{
    let parent = decode_transaction(parent_raw);
    let outpoint_txid = decode_txid(parent_txid);
    if parent.is_none() || outpoint_txid.is_none() { return BuildStep::Failed; }
    let psbt = match finish_child_psbt(convenant_wallet, parent.unwrap(), outpoint_txid.unwrap(),
        vout, input_value, satisfaction_weight, bump_script_pubkey, bump_value, cov_script_pubkey,
        cov_value, fee) {
        PsbtOutcome::Done(p) => p,
        PsbtOutcome::Dust => return BuildStep::DustStop,
        PsbtOutcome::Fail => return BuildStep::Failed,
    };
    match sign_and_extract(convenant_wallet, psbt) {
        Some(t) => BuildStep::Built(chain_tx_model(&t)),
        None => BuildStep::Failed,
    }
}

/// One chain iteration: locate the parent's covenant output, stop when its
/// value no longer covers dust and fee, otherwise have the wallet build and
/// sign the child paying the bump output `dust_limit` and the covenant
/// output the remainder. `Ok(None)` is the normal termination signal.
pub fn build_squential_transaction(
    convenant_wallet: &CovenantWallet,
    previous_tx: &ChainTx,
    dust_limit: u64,
    fee_amount: u64,
    satisfaction_weight: usize,
) -> (r: Result<Option<ChainTx>, CovenantError>)
    requires
        dust_limit + fee_amount >= 1,
        dust_limit + fee_amount <= u64::MAX,
        previous_tx.txid@.len() == 32,
    ensures
        !has_unique_cov(previous_tx.outputs@, convenant_wallet.spk@) ==> (r matches Err(e) && e
            == CovenantError::CovenantOutputMissing),
        r matches Ok(opt) ==> has_unique_cov(previous_tx.outputs@, convenant_wallet.spk@),
        has_unique_cov(previous_tx.outputs@, convenant_wallet.spk@) && cov_value_of(
            *previous_tx,
            convenant_wallet.spk@,
        ) < dust_limit + fee_amount ==> r matches Ok(None),
        r matches Ok(None) ==> spec_chain_len(
            cov_value_of(*previous_tx, convenant_wallet.spk@),
            dust_limit,
            fee_amount,
        ) == 0,
        r matches Ok(Some(c)) ==> {
            let cov_spk = convenant_wallet.spk@;
            let s = cov_value_of(*previous_tx, cov_spk);
            &&& s >= dust_limit + fee_amount
            &&& s - dust_limit - fee_amount >= P2WSH_DUST_FLOOR
            &&& dust_limit >= P2WSH_DUST_FLOOR
            &&& c.txid@.len() == 32
            &&& c.version == 2
            &&& c.lock_time == 0
            &&& c.inputs@.len() == 1
            &&& c.inputs@[0].prev_txid@ == previous_tx.txid@
            &&& c.inputs@[0].prev_vout == cov_index(previous_tx.outputs@, cov_spk)
            &&& c.inputs@[0].sequence == 1
            &&& c.inputs@[0].witness_items >= 1
            &&& c.outputs@.len() == 2
            &&& has_unique_cov(c.outputs@, cov_spk)
            &&& cov_value_of(c, cov_spk) == s - dust_limit - fee_amount
            &&& c.outputs@[1 - cov_index(c.outputs@, cov_spk)].script_pubkey@ == bump_spk()
            &&& c.outputs@[1 - cov_index(c.outputs@, cov_spk)].value == dust_limit
        },
{
    let covenant_spk = convenant_wallet.script_pubkey();
    let vout = match find_covenant_vout(&previous_tx.outputs, &covenant_spk) {
        Some(v) => v,
        None => {
            return Err(CovenantError::CovenantOutputMissing);
        },
    };
    let input_satoshis = previous_tx.outputs[vout].value;
    if input_satoshis < dust_limit + fee_amount {
        return Ok(None);
    }
    if vout > 0xFFFF_FFFFusize {
        return Err(CovenantError::BuildFailed);
    }
    if !(covenant_spk.len() == 34 && covenant_spk[0] == 0x00u8 && covenant_spk[1] == 0x20u8) {
        return Err(CovenantError::BuildFailed);
    }
    let bump_script_pubkey = build_bump_spk();
    let covenant_amount = input_satoshis - dust_limit - fee_amount;
    match build_child_tx(
        convenant_wallet,
        &previous_tx.raw,
        &previous_tx.txid,
        vout as u32,
        input_satoshis,
        satisfaction_weight,
        &bump_script_pubkey,
        dust_limit,
        &covenant_spk,
        covenant_amount,
        fee_amount,
    ) {
        BuildStep::Built(child) => {
            // bdk promised nothing of the child's shape: hold it to the
            // chain invariants here and treat any deviation as fatal.
            if !(child.version == 2 && child.lock_time == 0 && child.txid.len() == 32
                && child.inputs.len() == 1 && child.outputs.len() == 2) {
                return Err(CovenantError::BuildFailed);
            }
            if !(bytes_eq(&child.inputs[0].prev_txid, &previous_tx.txid)
                && child.inputs[0].prev_vout == vout as u32 && child.inputs[0].sequence == 1
                && child.inputs[0].witness_items >= 1) {
                return Err(CovenantError::BuildFailed);
            }
            let child_vout = match find_covenant_vout(&child.outputs, &covenant_spk) {
                Some(v) => v,
                None => {
                    return Err(CovenantError::CovenantOutputMissing);
                },
            };
            let bump_vout = 1 - child_vout;
            if !(child.outputs[child_vout].value == covenant_amount
                && bytes_eq(&child.outputs[bump_vout].script_pubkey, &bump_script_pubkey)
                && child.outputs[bump_vout].value == dust_limit) {
                return Err(CovenantError::BuildFailed);
            }
            Ok(Some(child))
        },
        BuildStep::DustStop => Ok(None),
        BuildStep::Failed => Err(CovenantError::BuildFailed),
    }
}

/// The transaction whose covenant output the next iteration spends: the last
/// child built so far, or the funding transaction before any child exists.
pub open spec fn cur_tx(chain: Seq<ChainEntry>, funding: ChainTx) -> ChainTx {
    if chain.len() == 0 {
        funding
    } else {
        chain.last().tx
    }
}

/// Build the full chain of pre-signed transactions rooted at `transaction`:
/// children are built and signed one per iteration until the covenant value
/// no longer covers dust, fee and the relay dust floor. On success the chain
/// has exactly the length determined by the funding covenant value, and every
/// entry satisfies the chain shape `chain_ok`.
pub fn generate_sequential_convenant_transactions(
    cfg: &ConfigFile,
    convenant_wallet: &CovenantWallet,
    transaction: &ChainTx,
) -> (r: Result<ChainMap, CovenantError>)
    requires
        cfg.dust_limit + cfg.fee_amount >= 1,
        cfg.dust_limit + cfg.fee_amount <= u64::MAX,
        transaction.txid@.len() == 32,
    ensures
        r matches Ok(m) ==> ({
            let cov_spk = convenant_wallet.spk@;
            &&& has_unique_cov(transaction.outputs@, cov_spk)
            &&& chain_ok(m.entries@, *transaction, cov_spk, cfg.dust_limit, cfg.fee_amount)
            &&& m.entries@.len() == spec_chain_len(
                cov_value_of(*transaction, cov_spk),
                cfg.dust_limit,
                cfg.fee_amount,
            )
        }),
        !has_unique_cov(transaction.outputs@, convenant_wallet.spk@) ==> (r matches Err(e) && e
            == CovenantError::CovenantOutputMissing),
{
    let satisfaction_weight = convenant_wallet.satisfaction_weight();
    let dust_limit = cfg.dust_limit;
    let fee_amount = cfg.fee_amount;
    let ghost cov_spk = convenant_wallet.spk@;
    let ghost s0 = cov_value_of(*transaction, cov_spk);
    let ghost d = (dust_limit + fee_amount) as int;
    let mut entries: Vec<ChainEntry> = Vec::new();
    loop
        invariant
            dust_limit == cfg.dust_limit,
            fee_amount == cfg.fee_amount,
            dust_limit + fee_amount >= 1,
            dust_limit + fee_amount <= u64::MAX,
            transaction.txid@.len() == 32,
            cov_spk == convenant_wallet.spk@,
            s0 == cov_value_of(*transaction, cov_spk),
            d == dust_limit + fee_amount,
            chain_ok(entries@, *transaction, cov_spk, dust_limit, fee_amount),
            entries@.len() > 0 ==> has_unique_cov(transaction.outputs@, cov_spk),
            entries@.len() > 0 ==> cov_value_of(cur_tx(entries@, *transaction), cov_spk) == s0
                - entries@.len() * d,
            cur_tx(entries@, *transaction).txid@.len() == 32,
            spec_chain_len(s0, dust_limit, fee_amount) == entries@.len() + spec_chain_len(
                cov_value_of(cur_tx(entries@, *transaction), cov_spk),
                dust_limit,
                fee_amount,
            ),
        decreases spec_chain_len(
            cov_value_of(cur_tx(entries@, *transaction), cov_spk),
            dust_limit,
            fee_amount,
        ),
    {
        let ghost old_entries = entries@;
        let ghost parent_spec = cur_tx(entries@, *transaction);
        let ghost s_i = cov_value_of(parent_spec, cov_spk);
        let step = if entries.len() == 0 {
            build_squential_transaction(
                convenant_wallet,
                transaction,
                dust_limit,
                fee_amount,
                satisfaction_weight,
            )
        } else {
            let idx = entries.len() - 1;
            build_squential_transaction(
                convenant_wallet,
                &entries[idx].tx,
                dust_limit,
                fee_amount,
                satisfaction_weight,
            )
        };
        match step {
            Ok(Some(child)) => {
                let prev_txid = if entries.len() == 0 {
                    copy_bytes(&transaction.txid)
                } else {
                    let idx = entries.len() - 1;
                    copy_bytes(&entries[idx].tx.txid)
                };
                proof {
                    assert(s_i >= d && s_i - d >= P2WSH_DUST_FLOOR && dust_limit
                        >= P2WSH_DUST_FLOOR);
                    assert(spec_chain_len(s_i, dust_limit, fee_amount) == 1 + spec_chain_len(
                        s_i - d,
                        dust_limit,
                        fee_amount,
                    ));
                }
                let entry = ChainEntry { prev_txid, tx: child };
                entries.push(entry);
                proof {
                    let n = old_entries.len() as int;
                    assert(entries@.len() == n + 1);
                    assert(entries@.last() == entries@[n]);
                    assert(cur_tx(entries@, *transaction) == entries@[n].tx);
                    assert(entry_ok(
                        entries@[n],
                        parent_spec.txid@,
                        cov_index(parent_spec.outputs@, cov_spk),
                        s_i,
                        cov_spk,
                        dust_limit,
                        fee_amount,
                    ));
                    assert((n + 1) * d == n * d + d) by (nonlinear_arith);
                    if n == 0 {
                        assert(s_i == s0);
                    }
                    assert(cov_value_of(entries@[n].tx, cov_spk) == s0 - (n + 1) * d);
                    assert forall|i: int| 0 <= i < entries@.len() implies entry_ok(
                        #[trigger] entries@[i],
                        if i == 0 {
                            transaction.txid@
                        } else {
                            entries@[i - 1].tx.txid@
                        },
                        if i == 0 {
                            cov_index(transaction.outputs@, cov_spk)
                        } else {
                            cov_index(entries@[i - 1].tx.outputs@, cov_spk)
                        },
                        s0 - i * d,
                        cov_spk,
                        dust_limit,
                        fee_amount,
                    ) by {
                        if i < n {
                            assert(entries@[i] == old_entries[i]);
                            if i > 0 {
                                assert(entries@[i - 1] == old_entries[i - 1]);
                            }
                        } else {
                            assert(i == n);
                            if n > 0 {
                                assert(entries@[n - 1] == old_entries[n - 1]);
                                assert(parent_spec == old_entries[n - 1].tx);
                            }
                        }
                    }
                    assert(chain_ok(entries@, *transaction, cov_spk, dust_limit, fee_amount));
                }
            },
            Ok(None) => {
                return Ok(ChainMap { entries });
            },
            Err(e) => {
                return Err(e);
            },
        }
    }
}

/// Chain length law: a funding covenant output of `amount` satoshis with
/// `amount >= dust + fee` yields a chain of length
/// `(amount - dust) / (dust + fee)`, or one more when the builder's own dust
/// sentinel rather than the pre-check ends the chain. The dust limit must
/// clear the relay floor for a P2WSH output, below which no child is ever
/// accepted.
pub proof fn lemma_chain_length(amount: int, dust: u64, fee: u64)
    requires
        dust >= P2WSH_DUST_FLOOR,
        amount >= dust + fee,
    ensures
        (amount - dust) / (dust + fee) <= spec_chain_len(amount, dust, fee),
        spec_chain_len(amount, dust, fee) <= (amount - dust) / (dust + fee) + 1,
    decreases amount,
{
    let d = dust + fee;
    let f = (amount - dust) / d;
    if amount - d < P2WSH_DUST_FLOOR {
        assert(spec_chain_len(amount, dust, fee) == 0);
        assert(0 <= amount - dust < d);
        lemma_basic_div(amount - dust, d);
    } else {
        assert(spec_chain_len(amount, dust, fee) == 1 + spec_chain_len(amount - d, dust, fee));
        if amount - d >= d {
            lemma_chain_length(amount - d, dust, fee);
            lemma_div_plus_one(amount - d - dust, d);
            assert(d + (amount - d - dust) == amount - dust);
        } else {
            assert(spec_chain_len(amount - d, dust, fee) == 0);
            lemma_div_pos_is_pos(amount - dust, d);
            assert(amount - dust < d * 2);
            lemma_multiply_divide_lt(amount - dust, d, 2);
            assert(0 <= f < 2);
        }
    }
}

/// Value conservation law: every chain entry pays exactly `dust` to the bump
/// output under the anchor script, and its covenant output carries the
/// parent's covenant value minus dust and fee, under the covenant script.
pub proof fn lemma_value_conservation(
    chain: Seq<ChainEntry>,
    funding: ChainTx,
    cov_spk: Seq<u8>,
    dust: u64,
    fee: u64,
)
    requires
        chain_ok(chain, funding, cov_spk, dust, fee),
    ensures
        forall|i: int|
            0 <= i < chain.len() ==> ({
                let outs = (#[trigger] chain[i]).tx.outputs@;
                let c = cov_index(outs, cov_spk);
                &&& outs[c].script_pubkey@ == cov_spk
                &&& outs[c].value == cov_value_of(parent_of(chain, funding, i), cov_spk) - dust
                    - fee
                &&& outs[1 - c].script_pubkey@ == bump_spk()
                &&& outs[1 - c].value == dust
            }),
{
    let s0 = cov_value_of(funding, cov_spk);
    let d = (dust + fee) as int;
    assert forall|i: int| 0 <= i < chain.len() implies ({
        let outs = (#[trigger] chain[i]).tx.outputs@;
        let c = cov_index(outs, cov_spk);
        &&& outs[c].script_pubkey@ == cov_spk
        &&& outs[c].value == cov_value_of(parent_of(chain, funding, i), cov_spk) - dust - fee
        &&& outs[1 - c].script_pubkey@ == bump_spk()
        &&& outs[1 - c].value == dust
    }) by {
        assert(entry_ok(
            chain[i],
            parent_of(chain, funding, i).txid@,
            cov_index(parent_of(chain, funding, i).outputs@, cov_spk),
            s0 - i * d,
            cov_spk,
            dust,
            fee,
        ));
        let outs = chain[i].tx.outputs@;
        let c = cov_index(outs, cov_spk);
        assert(unique_cov_at(outs, cov_spk, c));
        if i == 0 {
            assert(cov_value_of(parent_of(chain, funding, i), cov_spk) == s0 - i * d);
        } else {
            assert(entry_ok(
                chain[i - 1],
                parent_of(chain, funding, i - 1).txid@,
                cov_index(parent_of(chain, funding, i - 1).outputs@, cov_spk),
                s0 - (i - 1) * d,
                cov_spk,
                dust,
                fee,
            ));
            assert(cov_value_of(chain[i - 1].tx, cov_spk) == s0 - (i - 1) * d - dust - fee);
            assert((i - 1) * d + d == i * d) by (nonlinear_arith);
        }
    }
}

/// Chain linkage law: the first entry spends the funding transaction, every
/// later entry spends the child before it, and every entry whose key is not
/// the funding txid is keyed by the txid of another entry's child: the txids
/// form a single path rooted at the funding transaction.
pub proof fn lemma_chain_linkage(
    chain: Seq<ChainEntry>,
    funding: ChainTx,
    cov_spk: Seq<u8>,
    dust: u64,
    fee: u64,
)
    requires
        chain_ok(chain, funding, cov_spk, dust, fee),
    ensures
        chain.len() > 0 ==> chain[0].prev_txid@ == funding.txid@,
        forall|i: int|
            0 < i < chain.len() ==> (#[trigger] chain[i]).prev_txid@ == chain[i - 1].tx.txid@,
        forall|i: int|
            0 <= i < chain.len() && (#[trigger] chain[i]).prev_txid@ != funding.txid@
                ==> exists|j: int|
                0 <= j < chain.len() && (#[trigger] chain[j]).tx.txid@ == chain[i].prev_txid@,
{
    assert forall|i: int|
        0 <= i < chain.len() && (#[trigger] chain[i]).prev_txid@ != funding.txid@ implies exists|
        j: int,
    |
        0 <= j < chain.len() && (#[trigger] chain[j]).tx.txid@ == chain[i].prev_txid@ by {
        if i > 0 {
            assert(0 <= i - 1 < chain.len() && chain[i - 1].tx.txid@ == chain[i].prev_txid@);
        }
    }
}

/// nSequence `n` permits a BIP-68 one-block relative timelock: the disable
/// bit is clear, the type flag selects block height, and the locked value is
/// at least one block.
pub open spec fn bip68_permits_older_one(n: u32) -> bool {
    &&& n & 0x8000_0000u32 == 0
    &&& n & 0x0040_0000u32 == 0
    &&& n & 0xFFFFu32 >= 1
}

/// Script invariant law: every child is version 2, has nLockTime 0, exactly
/// one input and two outputs, and its single input carries a witness and an
/// nSequence permitting BIP-68 `older(1)`.
pub proof fn lemma_script_invariants(
    chain: Seq<ChainEntry>,
    funding: ChainTx,
    cov_spk: Seq<u8>,
    dust: u64,
    fee: u64,
)
    requires
        chain_ok(chain, funding, cov_spk, dust, fee),
    ensures
        forall|i: int|
            0 <= i < chain.len() ==> ({
                &&& (#[trigger] chain[i]).tx.version == 2
                &&& chain[i].tx.lock_time == 0
                &&& chain[i].tx.inputs@.len() == 1
                &&& chain[i].tx.outputs@.len() == 2
                &&& chain[i].tx.inputs@[0].witness_items >= 1
                &&& bip68_permits_older_one(chain[i].tx.inputs@[0].sequence)
            }),
{
    assert(1u32 & 0x8000_0000u32 == 0) by (bit_vector);
    assert(1u32 & 0x0040_0000u32 == 0) by (bit_vector);
    assert(1u32 & 0xFFFFu32 == 1) by (bit_vector);
}

/// Output-order irrelevance law: swapping the two outputs of a funding
/// transaction changes neither whether it carries a unique covenant output,
/// nor that output's value, nor the length of the chain built from it. With
/// the chain builder's exact-length guarantee, two successful runs from the
/// two orderings build chains of one length; every consumer locates the
/// covenant by scriptPubKey match, never by index.
pub proof fn lemma_output_order_irrelevant(
    a: ChainTx,
    b: ChainTx,
    cov_spk: Seq<u8>,
    dust: u64,
    fee: u64,
)
    requires
        dust + fee >= 1,
        a.outputs@.len() == 2,
        b.outputs@.len() == 2,
        b.outputs@[0] == a.outputs@[1],
        b.outputs@[1] == a.outputs@[0],
    ensures
        has_unique_cov(a.outputs@, cov_spk) == has_unique_cov(b.outputs@, cov_spk),
        has_unique_cov(a.outputs@, cov_spk) ==> cov_value_of(a, cov_spk) == cov_value_of(
            b,
            cov_spk,
        ),
        has_unique_cov(a.outputs@, cov_spk) ==> spec_chain_len(
            cov_value_of(a, cov_spk),
            dust,
            fee,
        ) == spec_chain_len(cov_value_of(b, cov_spk), dust, fee),
{
    if has_unique_cov(a.outputs@, cov_spk) {
        let i = cov_index(a.outputs@, cov_spk);
        assert(unique_cov_at(a.outputs@, cov_spk, i));
        assert(unique_cov_at(b.outputs@, cov_spk, 1 - i));
        let j = cov_index(b.outputs@, cov_spk);
        assert(unique_cov_at(b.outputs@, cov_spk, j));
        assert(j == 1 - i);
    }
    if has_unique_cov(b.outputs@, cov_spk) {
        let i = cov_index(b.outputs@, cov_spk);
        assert(unique_cov_at(b.outputs@, cov_spk, i));
        assert(unique_cov_at(a.outputs@, cov_spk, 1 - i));
    }
}

} // verus!
