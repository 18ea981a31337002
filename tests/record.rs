use solagg::batch::{block_to_batch, transaction_schema, ColumnType, ColumnarBatch};
use solagg::record::{
    normalize_block, parse_transaction, RawBlock, RawMessage, RawMeta, RawTransaction,
    TransactionRecord,
};

fn tx(sig: &str, keys: &[&str], pre: &[u64], post: &[u64], fee: u64, err: Option<&str>) -> RawTransaction {
    RawTransaction {
        meta: Some(RawMeta {
            err: err.map(|e| e.to_string()),
            fee,
            pre_balances: pre.to_vec(),
            post_balances: post.to_vec(),
        }),
        message: Some(RawMessage {
            signatures: vec![sig.to_string()],
            account_keys: keys.iter().map(|k| k.to_string()).collect(),
        }),
    }
}

fn same(a: &TransactionRecord, b: &TransactionRecord) -> bool {
    a.signature == b.signature
        && a.slot == b.slot
        && a.err == b.err
        && a.block_time == b.block_time
        && a.fee == b.fee
        && a.sender == b.sender
        && a.receiver == b.receiver
        && a.amount == b.amount
}

#[test]
fn normalizes_a_transfer() {
    let t = tx("sig1", &["alice", "bob", "sys"], &[1_000, 5], &[400, 5], 5_000, None);
    let r = parse_transaction(&t, 42, Some(1_720_353_600)).unwrap();
    assert_eq!(r.signature, "sig1");
    assert_eq!(r.slot, 42);
    assert_eq!(r.err, None);
    assert_eq!(r.block_time, Some(1_720_353_600));
    assert_eq!(r.fee, 5_000);
    assert_eq!(r.sender, "alice");
    assert_eq!(r.receiver, "bob");
    assert_eq!(r.amount, 600);
}

#[test]
fn amount_may_be_negative_and_error_is_kept() {
    let t = tx("sig2", &["a", "b"], &[100], &[250], 0, Some("InsufficientFunds"));
    let r = parse_transaction(&t, 7, None).unwrap();
    assert_eq!(r.amount, -150);
    assert_eq!(r.err, Some("InsufficientFunds".to_string()));
    assert_eq!(r.block_time, None);
}

#[test]
fn drop_rule_each_missing_part() {
    let no_meta = RawTransaction {
        meta: None,
        message: Some(RawMessage { signatures: vec!["s".to_string()], account_keys: vec!["a".to_string(), "b".to_string()] }),
    };
    assert!(parse_transaction(&no_meta, 1, None).is_none());
    let undecodable = RawTransaction {
        meta: Some(RawMeta { err: None, fee: 1, pre_balances: vec![1], post_balances: vec![1] }),
        message: None,
    };
    assert!(parse_transaction(&undecodable, 1, None).is_none());
    assert!(parse_transaction(&tx("s", &["a"], &[1], &[1], 1, None), 1, None).is_none());
    assert!(parse_transaction(&tx("s", &["a", "b"], &[], &[1], 1, None), 1, None).is_none());
    assert!(parse_transaction(&tx("s", &["a", "b"], &[1], &[], 1, None), 1, None).is_none());
    let mut no_sig = tx("s", &["a", "b"], &[1], &[1], 1, None);
    no_sig.message.as_mut().unwrap().signatures.clear();
    assert!(parse_transaction(&no_sig, 1, None).is_none());
}

#[test]
fn block_drops_only_unnormalizable_transactions() {
    let block = RawBlock {
        transactions: Some(vec![
            tx("a", &["x", "y"], &[10], &[4], 1, None),
            tx("vote", &["x"], &[10], &[4], 1, None),
            RawTransaction { meta: None, message: None },
            tx("b", &["y", "z"], &[3], &[9], 2, None),
        ]),
        block_time: Some(100),
    };
    let recs = normalize_block(&block, 9);
    assert_eq!(recs.len(), 2);
    assert_eq!(recs[0].signature, "a");
    assert_eq!(recs[0].amount, 6);
    assert_eq!(recs[1].signature, "b");
    assert_eq!(recs[1].amount, -6);
    assert!(recs.iter().all(|r| r.slot == 9 && r.block_time == Some(100)));
}

#[test]
fn normalizing_twice_gives_identical_records() {
    let block = RawBlock {
        transactions: Some(vec![
            tx("a", &["x", "y"], &[10], &[4], 1, Some("e")),
            tx("b", &["y", "z"], &[3], &[9], 2, None),
        ]),
        block_time: None,
    };
    let first = normalize_block(&block, 5);
    let second = normalize_block(&block, 5);
    assert_eq!(first.len(), second.len());
    for (a, b) in first.iter().zip(second.iter()) {
        assert!(same(a, b));
    }
}

#[test]
fn missing_or_empty_block_gives_no_records() {
    let none = RawBlock { transactions: None, block_time: Some(1) };
    assert!(normalize_block(&none, 3).is_empty());
    let empty = RawBlock { transactions: Some(vec![]), block_time: None };
    assert!(normalize_block(&empty, 3).is_empty());
    let batch = block_to_batch(&none, 3);
    assert_eq!(batch.num_rows(), 0);
}

#[test]
fn schema_is_the_fixed_field_list() {
    let s = transaction_schema();
    let expected = [
        ("signature", ColumnType::Utf8, false),
        ("slot", ColumnType::UInt64, false),
        ("err", ColumnType::Utf8, true),
        ("block_time", ColumnType::TimestampSecond, true),
        ("fee", ColumnType::UInt64, false),
        ("sender", ColumnType::Utf8, false),
        ("receiver", ColumnType::Utf8, false),
        ("amount", ColumnType::Int64, false),
    ];
    assert_eq!(s.len(), expected.len());
    for (f, (name, ty, nullable)) in s.iter().zip(expected.iter()) {
        assert_eq!(f.name, *name);
        assert_eq!(f.data_type, *ty);
        assert_eq!(f.nullable, *nullable);
    }
    let empty = ColumnarBatch::new_empty();
    assert_eq!(empty.num_rows(), 0);
    assert_eq!(empty.schema().len(), 8);
}

#[test]
fn batch_rows_follow_records() {
    let block = RawBlock {
        transactions: Some(vec![
            tx("a", &["x", "y"], &[10], &[4], 1, None),
            tx("b", &["y", "z"], &[3], &[9], 2, Some("boom")),
        ]),
        block_time: Some(77),
    };
    let recs = normalize_block(&block, 11);
    let batch = ColumnarBatch::from_records(&recs);
    assert_eq!(batch.num_rows(), 2);
    for i in 0..2 {
        assert!(same(&batch.row(i), &recs[i]));
    }
    let b2 = block_to_batch(&block, 11);
    assert_eq!(b2.num_rows(), 2);
    assert_eq!(b2.row(1).err, Some("boom".to_string()));
    assert_eq!(b2.row(0).receiver, "y");
}
