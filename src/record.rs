//! Normalization of raw ledger transactions into [`TransactionRecord`]s.
use vstd::prelude::*;

verus! {

/// The status metadata of a transaction, as far as normalization reads it.
pub struct RawMeta {
    /// The on-chain error, rendered as text; `None` when the transaction succeeded.
    pub err: Option<String>,
    pub fee: u64,
    pub pre_balances: Vec<u64>,
    pub post_balances: Vec<u64>,
}

/// The decoded message of a transaction: its signatures and its static
/// account keys, each as base-58 text.
pub struct RawMessage {
    pub signatures: Vec<String>,
    pub account_keys: Vec<String>,
}

/// One transaction of a block as the node returned it.
pub struct RawTransaction {
    /// `None` when the node sent no status metadata.
    pub meta: Option<RawMeta>,
    /// `None` when the encoded transaction could not be decoded.
    pub message: Option<RawMessage>,
}

/// A block as the node returned it.
pub struct RawBlock {
    /// `None` when the block carries no transaction list.
    pub transactions: Option<Vec<RawTransaction>>,
    /// Unix seconds; `None` when the node has no timestamp for the block.
    pub block_time: Option<i64>,
}

/// One normalized ledger transaction.
pub struct TransactionRecord {
    pub signature: String,
    pub slot: u64,
    pub err: Option<String>,
    pub block_time: Option<i64>,
    pub fee: u64,
    pub sender: String,
    pub receiver: String,
    pub amount: i64,
}

/// `pre - post`, read as a two's-complement 64-bit value (the two differ
/// only for balances above `i64::MAX`, which no real account holds).
pub open spec fn balance_delta(pre: u64, post: u64) -> int {
    let d = pre - post;
    if d > i64::MAX {
        d - 0x1_0000_0000_0000_0000int
    } else if d < i64::MIN {
        d + 0x1_0000_0000_0000_0000int
    } else {
        d
    }
}

/// A transaction can be normalized when it has metadata, a decoded message
/// with a signature and at least two static account keys, and a
/// pre/post balance pair for the first account.
pub open spec fn is_normalizable(tx: RawTransaction) -> bool {
    &&& tx.meta is Some
    &&& tx.message is Some
    &&& tx.message->0.signatures@.len() >= 1
    &&& tx.message->0.account_keys@.len() >= 2
    &&& tx.meta->0.pre_balances@.len() >= 1
    &&& tx.meta->0.post_balances@.len() >= 1
}

/// The record made of a normalizable transaction.
pub open spec fn record_of(tx: RawTransaction, slot: u64, block_time: Option<i64>) -> TransactionRecord
    recommends
        is_normalizable(tx),
{
    let meta = tx.meta->0;
    let msg = tx.message->0;
    TransactionRecord {
        signature: msg.signatures@[0],
        slot,
        err: meta.err,
        block_time,
        fee: meta.fee,
        sender: msg.account_keys@[0],
        receiver: msg.account_keys@[1],
        amount: balance_delta(meta.pre_balances@[0], meta.post_balances@[0]) as i64,
    }
}

/// What normalization makes of one transaction: a record, or nothing.
pub open spec fn normalize(tx: RawTransaction, slot: u64, block_time: Option<i64>) -> Option<TransactionRecord> {
    if is_normalizable(tx) {
        Some(record_of(tx, slot, block_time))
    } else {
        None
    }
}

/// The records of a list of transactions, in order, skipping those that
/// cannot be normalized.
pub open spec fn records_of(txs: Seq<RawTransaction>, slot: u64, block_time: Option<i64>) -> Seq<TransactionRecord>
    decreases txs.len(),
{
    if txs.len() == 0 {
        Seq::empty()
    } else {
        let rest = records_of(txs.drop_last(), slot, block_time);
        match normalize(txs.last(), slot, block_time) {
            Some(r) => rest.push(r),
            None => rest,
        }
    }
}

/// The records of a block; a block without a transaction list has none.
pub open spec fn block_records(block: RawBlock, slot: u64) -> Seq<TransactionRecord> {
    match block.transactions {
        Some(txs) => records_of(txs@, slot, block.block_time),
        None => Seq::empty(),
    }
}

fn clone_opt_string(s: &Option<String>) -> (r: Option<String>)
    ensures
        r == *s,
{
    match s {
        Some(t) => Some(t.clone()),
        None => None,
    }
}

fn delta(pre: u64, post: u64) -> (r: i64)
    ensures
        r as int == balance_delta(pre, post),
{
    let d: i128 = pre as i128 - post as i128;
    if d > i64::MAX as i128 {
        (d - 0x1_0000_0000_0000_0000i128) as i64
    } else if d < i64::MIN as i128 {
        (d + 0x1_0000_0000_0000_0000i128) as i64
    } else {
        d as i64
    }
}

/// Normalizes one transaction of the block at `slot`: `None` exactly when
/// the transaction lacks metadata, a decoded message, a signature, two
/// static account keys, or a balance pair for the first account.
pub fn parse_transaction(
    tx: &RawTransaction,
    slot: u64,
    block_time: Option<i64>,
) -> (r: Option<TransactionRecord>)
    ensures
        r == normalize(*tx, slot, block_time),
        r is None <==> !is_normalizable(*tx),
{
    let meta = match &tx.meta {
        Some(m) => m,
        None => return None,
    };
    let msg = match &tx.message {
        Some(m) => m,
        None => return None,
    };
    if msg.signatures.len() < 1 || msg.account_keys.len() < 2 || meta.pre_balances.len() < 1
        || meta.post_balances.len() < 1 {
        return None;
    }
    Some(
        TransactionRecord {
            signature: msg.signatures[0].clone(),
            slot,
            err: clone_opt_string(&meta.err),
            block_time,
            fee: meta.fee,
            sender: msg.account_keys[0].clone(),
            receiver: msg.account_keys[1].clone(),
            amount: delta(meta.pre_balances[0], meta.post_balances[0]),
        },
    )
}

/// Normalizes every transaction of the block at `slot`, in order, dropping
/// those that cannot be normalized; a block without a transaction list
/// gives no records.
pub fn normalize_block(block: &RawBlock, slot: u64) -> (r: Vec<TransactionRecord>)
    ensures
        r@ == block_records(*block, slot),
{
    let mut out: Vec<TransactionRecord> = Vec::new();
    match &block.transactions {
        None => {},
        Some(txs) => {
            let mut i: usize = 0;
            while i < txs.len()
                invariant
                    i <= txs@.len(),
                    out@ == records_of(txs@.subrange(0, i as int), slot, block.block_time),
                decreases txs@.len() - i,
            {
                let ghost prefix = txs@.subrange(0, i + 1);
                assert(prefix.drop_last() =~= txs@.subrange(0, i as int));
                match parse_transaction(&txs[i], slot, block.block_time) {
                    Some(rec) => out.push(rec),
                    None => {},
                }
                i = i + 1;
            }
            assert(txs@.subrange(0, txs@.len() as int) =~= txs@);
        },
    }
    out
}

/// Normalization is a function of the block and the slot alone: the same
/// raw block gives the same record sequence every time.
pub proof fn lemma_normalization_idempotent(a: RawBlock, b: RawBlock, slot: u64)
    requires
        a == b,
    ensures
        block_records(a, slot) == block_records(b, slot),
{
}

/// A transaction that cannot be normalized contributes nothing: the records
/// of a list are those of the normalizable transactions, and adding an
/// unnormalizable one leaves them unchanged.
pub proof fn lemma_drop_rule(txs: Seq<RawTransaction>, tx: RawTransaction, slot: u64, block_time: Option<i64>)
    requires
        !is_normalizable(tx),
    ensures
        records_of(txs.push(tx), slot, block_time) == records_of(txs, slot, block_time),
        records_of(txs, slot, block_time).len() <= txs.len(),
{
    assert(txs.push(tx).drop_last() =~= txs);
    lemma_records_len(txs, slot, block_time);
}

proof fn lemma_records_len(txs: Seq<RawTransaction>, slot: u64, block_time: Option<i64>)
    ensures
        records_of(txs, slot, block_time).len() <= txs.len(),
    decreases txs.len(),
{
    if txs.len() > 0 {
        lemma_records_len(txs.drop_last(), slot, block_time);
    }
}

/// Every record of a block carries the slot it was fetched for.
pub proof fn lemma_block_records_slot(block: RawBlock, slot: u64)
    ensures
        forall|i: int| 0 <= i < block_records(block, slot).len() ==> (#[trigger] block_records(block, slot)[i]).slot == slot,
{
    if let Some(txs) = block.transactions {
        lemma_records_slot(txs@, slot, block.block_time);
    }
}

proof fn lemma_records_slot(txs: Seq<RawTransaction>, slot: u64, block_time: Option<i64>)
    ensures
        forall|i: int| 0 <= i < records_of(txs, slot, block_time).len() ==> (#[trigger] records_of(txs, slot, block_time)[i]).slot == slot,
    decreases txs.len(),
{
    if txs.len() > 0 {
        lemma_records_slot(txs.drop_last(), slot, block_time);
    }
}

} // verus!
