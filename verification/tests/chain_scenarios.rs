use bdk::bitcoin::consensus::serialize;
use covenant_chain::chain::{
    generate_sequential_convenant_transactions, ChainMap, ChainTx, TxInModel, TxOutModel,
};
use covenant_chain::config_file::{default_config, Network};
use covenant_chain::descriptor::generate_ephemeral_covenant_descriptor;
use covenant_chain::errors::CovenantError;
use covenant_chain::script::build_bump_spk;
use covenant_chain::store::build_store_batch;
use covenant_chain::wallet::{load_convenant_wallet, CovenantWallet};

fn model_of(t: &bdk::bitcoin::Transaction) -> ChainTx {
    ChainTx {
        txid: serialize(&t.txid()),
        version: t.version,
        lock_time: t.lock_time.0,
        inputs: t
            .input
            .iter()
            .map(|i| TxInModel {
                prev_txid: serialize(&i.previous_output.txid),
                prev_vout: i.previous_output.vout,
                sequence: i.sequence.to_consensus_u32(),
                witness_items: i.witness.len() as u64,
            })
            .collect(),
        outputs: t
            .output
            .iter()
            .map(|o| TxOutModel {
                value: o.value,
                script_pubkey: o.script_pubkey.to_bytes(),
            })
            .collect(),
        raw: serialize(t),
    }
}

fn funding_tx(outputs: &[(Vec<u8>, u64)]) -> bdk::bitcoin::Transaction {
    bdk::bitcoin::Transaction {
        version: 2,
        lock_time: bdk::bitcoin::PackedLockTime::ZERO,
        input: vec![bdk::bitcoin::TxIn {
            previous_output: bdk::bitcoin::OutPoint::null(),
            script_sig: bdk::bitcoin::Script::new(),
            sequence: bdk::bitcoin::Sequence::MAX,
            witness: bdk::bitcoin::Witness::new(),
        }],
        output: outputs
            .iter()
            .map(|(spk, value)| bdk::bitcoin::TxOut {
                value: *value,
                script_pubkey: bdk::bitcoin::Script::from(spk.clone()),
            })
            .collect(),
    }
}

/// A scriptPubKey that is not the covenant's: P2WSH of an unrelated script.
fn decoy_spk() -> Vec<u8> {
    covenant_chain::script::p2wsh_script_pubkey(&vec![0xaa])
}

/// Run the chain builder from a funding transaction paying `amount` to the
/// covenant at output index `cov_at` (0 or 1; index 1 puts a decoy first).
fn run_chain(amount: u64, cov_at: usize) -> (ChainMap, String, CovenantWallet, ChainTx) {
    let cfg = default_config();
    let (wallet, public_desc) = load_convenant_wallet(&cfg).unwrap();
    let spk = wallet.script_pubkey();
    let outputs: Vec<(Vec<u8>, u64)> = if cov_at == 0 {
        vec![(spk, amount)]
    } else {
        vec![(decoy_spk(), 5_000), (spk, amount)]
    };
    let funding = model_of(&funding_tx(&outputs));
    let map = generate_sequential_convenant_transactions(&cfg, &wallet, &funding).unwrap();
    (map, public_desc, wallet, funding)
}

fn cov_output_value(tx: &ChainTx, spk: &[u8]) -> u64 {
    let matches: Vec<&TxOutModel> = tx
        .outputs
        .iter()
        .filter(|o| o.script_pubkey.as_slice() == spk)
        .collect();
    assert_eq!(matches.len(), 1, "expected a unique covenant output");
    matches[0].value
}

/// Check value conservation, linkage and script shape over a whole chain.
fn check_chain_shape(map: &ChainMap, wallet: &CovenantWallet, funding: &ChainTx, amount: u64) {
    let spk = wallet.script_pubkey();
    let bump = build_bump_spk();
    let (dust, fee) = (800u64, 1200u64);
    let mut prev_txid = funding.txid.clone();
    let mut prev_value = amount;
    for entry in map.entries.iter() {
        // linkage: each entry is keyed by, and spends, the previous child
        assert_eq!(entry.prev_txid, prev_txid);
        assert_eq!(entry.tx.inputs.len(), 1);
        assert_eq!(entry.tx.inputs[0].prev_txid, prev_txid);
        // script invariants: version 2, lock time 0, two outputs, a signed
        // input, BIP-68 permitting nSequence
        assert_eq!(entry.tx.version, 2);
        assert_eq!(entry.tx.lock_time, 0);
        assert_eq!(entry.tx.outputs.len(), 2);
        assert!(entry.tx.inputs[0].witness_items >= 1);
        let seq = entry.tx.inputs[0].sequence;
        assert_eq!(seq & 0x8000_0000, 0);
        assert_eq!(seq & 0x0040_0000, 0);
        assert!(seq & 0xFFFF >= 1);
        // value conservation: bump carries dust, covenant the remainder
        let cov_value = cov_output_value(&entry.tx, &spk);
        assert_eq!(cov_value, prev_value - dust - fee);
        let bump_out: Vec<&TxOutModel> = entry
            .tx
            .outputs
            .iter()
            .filter(|o| o.script_pubkey == bump)
            .collect();
        assert_eq!(bump_out.len(), 1);
        assert_eq!(bump_out[0].value, dust);
        prev_txid = entry.tx.txid.clone();
        prev_value = cov_value;
    }
}

#[test]
fn chain_amount_10000_has_four_children() {
    let (map, _, wallet, funding) = run_chain(10_000, 0);
    assert_eq!(map.entries.len(), 4);
    let spk = wallet.script_pubkey();
    let last = &map.entries[map.entries.len() - 1].tx;
    assert_eq!(cov_output_value(last, &spk), 2_000);
    check_chain_shape(&map, &wallet, &funding, 10_000);
}

#[test]
fn chain_amount_2000_is_empty() {
    let (map, _, _, _) = run_chain(2_000, 0);
    assert_eq!(map.entries.len(), 0);
}

#[test]
fn chain_amount_2800_has_one_child() {
    let (map, _, wallet, funding) = run_chain(2_800, 0);
    assert_eq!(map.entries.len(), 1);
    let spk = wallet.script_pubkey();
    assert_eq!(cov_output_value(&map.entries[0].tx, &spk), 800);
    check_chain_shape(&map, &wallet, &funding, 2_800);
}

#[test]
fn chain_amount_1000000_has_499_children_and_rows() {
    let (map, public_desc, wallet, funding) = run_chain(1_000_000, 0);
    assert_eq!(map.entries.len(), 499);
    check_chain_shape(&map, &wallet, &funding, 1_000_000);
    let batch = build_store_batch(&map, &public_desc);
    assert_eq!(batch.tx_rows.len(), 499);
    assert_eq!(batch.public_descriptor, public_desc);
}

#[test]
fn covenant_found_at_either_output_index() {
    let (map0, _, _, _) = run_chain(2_800, 0);
    let (map1, _, _, _) = run_chain(2_800, 1);
    assert_eq!(map0.entries.len(), 1);
    assert_eq!(map1.entries.len(), 1);
}

#[test]
fn missing_covenant_output_is_fatal() {
    let cfg = default_config();
    let (wallet, _) = load_convenant_wallet(&cfg).unwrap();
    let funding = model_of(&funding_tx(&[(decoy_spk(), 10_000)]));
    let r = generate_sequential_convenant_transactions(&cfg, &wallet, &funding);
    assert!(matches!(r, Err(CovenantError::CovenantOutputMissing)));
}

#[test]
fn unsupported_network_is_rejected() {
    let mut cfg = default_config();
    cfg.network = "regtest".to_string();
    let r = load_convenant_wallet(&cfg);
    assert!(matches!(r, Err(CovenantError::UnsupportedNetwork)));
}

#[test]
fn descriptor_parity() {
    let descs = generate_ephemeral_covenant_descriptor(Network::Signet);
    let w_priv = bdk::Wallet::new(
        descs.private_desc.as_str(),
        None,
        bdk::bitcoin::Network::Signet,
        bdk::database::MemoryDatabase::default(),
    )
    .unwrap();
    let w_pub = bdk::Wallet::new(
        descs.public_desc.as_str(),
        None,
        bdk::bitcoin::Network::Signet,
        bdk::database::MemoryDatabase::default(),
    )
    .unwrap();
    let spk_priv = w_priv
        .get_address(bdk::wallet::AddressIndex::New)
        .unwrap()
        .address
        .script_pubkey();
    let spk_pub = w_pub
        .get_address(bdk::wallet::AddressIndex::New)
        .unwrap()
        .address
        .script_pubkey();
    assert_eq!(spk_priv, spk_pub);
}

#[test]
fn covenant_address_is_stable() {
    let cfg = default_config();
    let (wallet, _) = load_convenant_wallet(&cfg).unwrap();
    let a = wallet.script_pubkey();
    let b = wallet.script_pubkey();
    assert_eq!(a, b);
    assert_eq!(a.len(), 34);
    assert_eq!(a[0], 0x00);
    assert_eq!(a[1], 0x20);
}

#[test]
fn persistence_is_idempotent() {
    let (map, public_desc, _, _) = run_chain(10_000, 0);
    let b1 = build_store_batch(&map, &public_desc);
    let b2 = build_store_batch(&map, &public_desc);
    assert_eq!(b1.tx_rows.len(), b2.tx_rows.len());
    for (r1, r2) in b1.tx_rows.iter().zip(b2.tx_rows.iter()) {
        assert_eq!(r1.previous_tx_id, r2.previous_tx_id);
        assert_eq!(r1.tx_hex, r2.tx_hex);
    }
    assert_eq!(b1.public_descriptor, b2.public_descriptor);
    // the rows are the stored image of the chain itself
    for (row, entry) in b1.tx_rows.iter().zip(map.entries.iter()) {
        assert_eq!(row.previous_tx_id, entry.prev_txid);
        assert_eq!(row.tx_hex, entry.tx.raw);
    }
}

#[test]
fn children_deserialize_to_real_transactions() {
    let (map, _, wallet, _) = run_chain(10_000, 0);
    let spk = wallet.script_pubkey();
    for entry in map.entries.iter() {
        let tx: bdk::bitcoin::Transaction =
            bdk::bitcoin::consensus::deserialize(&entry.tx.raw).unwrap();
        assert_eq!(serialize(&tx.txid()), entry.tx.txid);
        assert_eq!(tx.version, 2);
        assert_eq!(tx.input.len(), 1);
        assert_eq!(tx.output.len(), 2);
        assert!(!tx.input[0].witness.is_empty(), "children must be signed");
        let cov: Vec<&bdk::bitcoin::TxOut> = tx
            .output
            .iter()
            .filter(|o| o.script_pubkey.as_bytes() == spk.as_slice())
            .collect();
        assert_eq!(cov.len(), 1);
    }
}
