use vstd::prelude::*;
use crate::chain::{copy_bytes, ChainEntry, ChainMap};

verus! {

/// One row of the `convenant_txs` table: the consensus-serialised parent txid
/// and the consensus-serialised child transaction.
pub struct DbRow {
    pub previous_tx_id: Vec<u8>,
    pub tx_hex: Vec<u8>,
}

/// Everything one run writes to the chain store: one row per chain entry and
/// a single row holding the public covenant descriptor. Written once, after
/// operator confirmation, and never mutated.
pub struct StoreBatch {
    pub tx_rows: Vec<DbRow>,
    pub public_descriptor: String,
}

/// The batch is exactly the stored image of the chain: row `i` holds entry
/// `i`'s parent txid and raw child bytes, and the descriptor row holds the
/// public descriptor.
pub open spec fn batch_matches(b: StoreBatch, chain: Seq<ChainEntry>, desc: Seq<char>) -> bool {
    &&& b.tx_rows@.len() == chain.len()
    &&& forall|i: int|
        0 <= i < chain.len() ==> (#[trigger] b.tx_rows@[i]).previous_tx_id@ == chain[i].prev_txid@
            && b.tx_rows@[i].tx_hex@ == chain[i].tx.raw@
    &&& b.public_descriptor@ == desc
}

/// Lay out the rows the chain store persists. The result is a function of
/// the chain and the public descriptor alone.
pub fn build_store_batch(tx_map: &ChainMap, public_desc: &String) -> (r: StoreBatch)
    ensures
        batch_matches(r, tx_map.entries@, public_desc@),
{
    let mut tx_rows: Vec<DbRow> = Vec::new();
    let mut i: usize = 0;
    while i < tx_map.entries.len()
        invariant
            i <= tx_map.entries@.len(),
            tx_rows@.len() == i,
            forall|j: int|
                0 <= j < i ==> (#[trigger] tx_rows@[j]).previous_tx_id@
                    == tx_map.entries@[j].prev_txid@ && tx_rows@[j].tx_hex@
                    == tx_map.entries@[j].tx.raw@,
        decreases tx_map.entries@.len() - i,
    {
        let row = DbRow {
            previous_tx_id: copy_bytes(&tx_map.entries[i].prev_txid),
            tx_hex: copy_bytes(&tx_map.entries[i].tx.raw),
        };
        tx_rows.push(row);
        i = i + 1;
    }
    StoreBatch { tx_rows, public_descriptor: public_desc.clone() }
}

/// Persistence idempotence law: two batches laid out from the same chain and
/// descriptor hold identical row contents, so re-running persistence against
/// a fresh store writes exactly the same rows.
pub proof fn lemma_persistence_idempotent(
    b1: StoreBatch,
    b2: StoreBatch,
    chain: Seq<ChainEntry>,
    desc: Seq<char>,
)
    requires
        batch_matches(b1, chain, desc),
        batch_matches(b2, chain, desc),
    ensures
        b1.tx_rows@.len() == b2.tx_rows@.len(),
        forall|i: int|
            0 <= i < b1.tx_rows@.len() ==> (#[trigger] b1.tx_rows@[i]).previous_tx_id@
                == b2.tx_rows@[i].previous_tx_id@ && b1.tx_rows@[i].tx_hex@
                == b2.tx_rows@[i].tx_hex@,
        b1.public_descriptor@ == b2.public_descriptor@,
{
}

} // verus!
