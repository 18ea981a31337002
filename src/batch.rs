//! The fixed columnar layout of transaction batches.
use vstd::prelude::*;
use vstd::string::StringExecFns;
use crate::record::{block_records, normalize_block, RawBlock, TransactionRecord};

verus! {

/// The type of one column.
#[derive(PartialEq, Eq, Structural, Clone, Copy, Debug)]
pub enum ColumnType {
    /// UTF-8 text.
    Utf8,
    /// Unsigned 64-bit integer.
    UInt64,
    /// Signed 64-bit integer.
    Int64,
    /// Unix timestamp with second precision.
    TimestampSecond,
}

/// One field of the batch schema.
pub struct FieldSpec {
    pub name: String,
    pub data_type: ColumnType,
    pub nullable: bool,
}

/// `f` is the field named `name` with the given type and nullability.
pub open spec fn field_is(f: FieldSpec, name: Seq<char>, data_type: ColumnType, nullable: bool) -> bool {
    f.name@ == name && f.data_type == data_type && f.nullable == nullable
}

/// The fixed schema of every transaction batch, field by field.
pub open spec fn is_transaction_schema(s: Seq<FieldSpec>) -> bool {
    &&& s.len() == 8
    &&& field_is(s[0], "signature"@, ColumnType::Utf8, false)
    &&& field_is(s[1], "slot"@, ColumnType::UInt64, false)
    &&& field_is(s[2], "err"@, ColumnType::Utf8, true)
    &&& field_is(s[3], "block_time"@, ColumnType::TimestampSecond, true)
    &&& field_is(s[4], "fee"@, ColumnType::UInt64, false)
    &&& field_is(s[5], "sender"@, ColumnType::Utf8, false)
    &&& field_is(s[6], "receiver"@, ColumnType::Utf8, false)
    &&& field_is(s[7], "amount"@, ColumnType::Int64, false)
}

fn field(name: &str, data_type: ColumnType, nullable: bool) -> (r: FieldSpec)
    ensures
        field_is(r, name@, data_type, nullable),
{
    FieldSpec { name: String::from_str(name), data_type, nullable }
}

/// The schema of transaction batches: `signature`, `slot`, `err`,
/// `block_time`, `fee`, `sender`, `receiver`, `amount`.
pub fn transaction_schema() -> (r: Vec<FieldSpec>)
    ensures
        is_transaction_schema(r@),
{
    let mut v: Vec<FieldSpec> = Vec::new();
    v.push(field("signature", ColumnType::Utf8, false));
    v.push(field("slot", ColumnType::UInt64, false));
    v.push(field("err", ColumnType::Utf8, true));
    v.push(field("block_time", ColumnType::TimestampSecond, true));
    v.push(field("fee", ColumnType::UInt64, false));
    v.push(field("sender", ColumnType::Utf8, false));
    v.push(field("receiver", ColumnType::Utf8, false));
    v.push(field("amount", ColumnType::Int64, false));
    v
}

/// An immutable columnar projection of transaction records: one column per
/// schema field, row `i` of the batch spread over index `i` of each column.
pub struct ColumnarBatch {
    signature: Vec<String>,
    slot: Vec<u64>,
    err: Vec<Option<String>>,
    block_time: Vec<Option<i64>>,
    fee: Vec<u64>,
    sender: Vec<String>,
    receiver: Vec<String>,
    amount: Vec<i64>,
}

impl ColumnarBatch {
    /// All columns have the same length.
    pub closed spec fn wf(&self) -> bool {
        let n = self.signature@.len();
        &&& self.slot@.len() == n
        &&& self.err@.len() == n
        &&& self.block_time@.len() == n
        &&& self.fee@.len() == n
        &&& self.sender@.len() == n
        &&& self.receiver@.len() == n
        &&& self.amount@.len() == n
    }

    pub closed spec fn spec_num_rows(&self) -> nat {
        self.signature@.len()
    }

    /// Row `i`, gathered from the columns.
    pub closed spec fn spec_row(&self, i: int) -> TransactionRecord {
        TransactionRecord {
            signature: self.signature@[i],
            slot: self.slot@[i],
            err: self.err@[i],
            block_time: self.block_time@[i],
            fee: self.fee@[i],
            sender: self.sender@[i],
            receiver: self.receiver@[i],
            amount: self.amount@[i],
        }
    }

    /// The rows of the batch, in order.
    pub open spec fn rows(&self) -> Seq<TransactionRecord> {
        Seq::new(self.spec_num_rows(), |i: int| self.spec_row(i))
    }

    /// A batch with no rows.
    pub fn new_empty() -> (r: ColumnarBatch)
        ensures
            r.wf(),
            r.rows().len() == 0,
    {
        ColumnarBatch {
            signature: Vec::new(),
            slot: Vec::new(),
            err: Vec::new(),
            block_time: Vec::new(),
            fee: Vec::new(),
            sender: Vec::new(),
            receiver: Vec::new(),
            amount: Vec::new(),
        }
    }

    /// Lays the records out as columns, one row per record, in order; no
    /// records give a batch with no rows.
    pub fn from_records(records: &Vec<TransactionRecord>) -> (r: ColumnarBatch)
        ensures
            r.wf(),
            r.rows() == records@,
    {
        let mut b = ColumnarBatch::new_empty();
        let mut i: usize = 0;
        while i < records.len()
            invariant
                i <= records@.len(),
                b.wf(),
                b.spec_num_rows() == i,
                forall|k: int| 0 <= k < i ==> #[trigger] b.spec_row(k) == records@[k],
            decreases records@.len() - i,
        {
            let rec = &records[i];
            let ghost prev = b;
            b.signature.push(rec.signature.clone());
            b.slot.push(rec.slot);
            b.err.push(
                match &rec.err {
                    Some(e) => Some(e.clone()),
                    None => None,
                },
            );
            b.block_time.push(rec.block_time);
            b.fee.push(rec.fee);
            b.sender.push(rec.sender.clone());
            b.receiver.push(rec.receiver.clone());
            b.amount.push(rec.amount);
            assert(b.spec_row(i as int) == records@[i as int]);
            assert forall|k: int| 0 <= k < i implies #[trigger] b.spec_row(k) == records@[k] by {
                assert(prev.spec_row(k) == records@[k]);
            }
            i = i + 1;
        }
        assert(b.rows() =~= records@);
        b
    }

    /// The number of rows.
    pub fn num_rows(&self) -> (r: usize)
        requires
            self.wf(),
        ensures
            r == self.rows().len(),
    {
        self.signature.len()
    }

    /// A copy of row `i`.
    pub fn row(&self, i: usize) -> (r: TransactionRecord)
        requires
            self.wf(),
            i < self.rows().len(),
        ensures
            r == self.rows()[i as int],
    {
        TransactionRecord {
            signature: self.signature[i].clone(),
            slot: self.slot[i],
            err: match &self.err[i] {
                Some(e) => Some(e.clone()),
                None => None,
            },
            block_time: self.block_time[i],
            fee: self.fee[i],
            sender: self.sender[i].clone(),
            receiver: self.receiver[i].clone(),
            amount: self.amount[i],
        }
    }

    /// The schema that every batch follows.
    pub fn schema(&self) -> (r: Vec<FieldSpec>)
        ensures
            is_transaction_schema(r@),
    {
        transaction_schema()
    }
}

/// The batch of the block fetched for `slot`: its normalizable
/// transactions, in order, one row each; a block without transactions gives
/// a batch with no rows.
pub fn block_to_batch(block: &RawBlock, slot: u64) -> (r: ColumnarBatch)
    ensures
        r.wf(),
        r.rows() == block_records(*block, slot),
{
    let records = normalize_block(block, slot);
    ColumnarBatch::from_records(&records)
}

/// Every row of the batch made from the block fetched for `slot` carries
/// that slot.
pub proof fn lemma_batch_rows_at_slot(b: ColumnarBatch, block: RawBlock, slot: u64)
    requires
        b.rows() == block_records(block, slot),
    ensures
        forall|i: int| 0 <= i < b.rows().len() ==> (#[trigger] b.rows()[i]).slot == slot,
{
    crate::record::lemma_block_records_slot(block, slot);
}

} // verus!
