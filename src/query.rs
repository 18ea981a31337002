//! The SQL texts that the query surface runs against the store.
use vstd::prelude::*;
use vstd::string::StringExecFns;
use crate::date::{normalize_date, normalized_date};

verus! {

/// The name under which the store's batches are queried.
pub const TABLE_NAME: &'static str = "transactions";

/// Counts all transactions, in a column named `count`.
pub fn count_sql() -> (r: String)
    ensures
        r@ == "SELECT count(1) as count FROM transactions"@,
{
    String::from_str("SELECT count(1) as count FROM transactions")
}

/// Selects the transactions with signature `id`.
pub fn signature_sql(id: &str) -> (r: String)
    ensures
        r@ == "SELECT * FROM transactions WHERE signature = '"@ + id@ + "'"@,
{
    String::from_str("SELECT * FROM transactions WHERE signature = '").concat(id).concat("'")
}

/// Selects the transactions whose block time falls on the ISO date `iso`.
pub fn day_sql(iso: &str) -> (r: String)
    ensures
        r@ == "SELECT * FROM transactions WHERE cast(block_time as DATE) = '"@ + iso@ + "'"@,
{
    String::from_str("SELECT * FROM transactions WHERE cast(block_time as DATE) = '").concat(iso).concat(
        "'",
    )
}

/// Why a transaction lookup could not be turned into SQL.
#[derive(Debug, PartialEq, Eq, Structural)]
pub enum LookupError {
    /// Neither a signature nor a day was given.
    NoFilter,
    /// The day is in none of the accepted date formats.
    BadDate,
}

pub open spec fn opt_text(o: Option<String>) -> Option<Seq<char>> {
    match o {
        Some(s) => Some(s@),
        None => None,
    }
}

/// The SQL text of a lookup by signature `id`, else by the ISO form of `day`.
pub open spec fn lookup_text(id: Option<Seq<char>>, day: Option<Seq<char>>) -> Result<Seq<char>, LookupError> {
    match id {
        Some(i) => Ok("SELECT * FROM transactions WHERE signature = '"@ + i + "'"@),
        None => match day {
            None => Err(LookupError::NoFilter),
            Some(d) => match normalized_date(d) {
                Some(iso) => Ok("SELECT * FROM transactions WHERE cast(block_time as DATE) = '"@ + iso + "'"@),
                None => Err(LookupError::BadDate),
            },
        },
    }
}

/// The SQL of a transaction lookup: by signature when `id` is given, else by
/// the day `day` normalized to its ISO date.
pub fn lookup_sql(id: &Option<String>, day: &Option<String>) -> (r: Result<String, LookupError>)
    ensures
        match r {
            Ok(q) => lookup_text(opt_text(*id), opt_text(*day)) == Ok::<Seq<char>, LookupError>(q@),
            Err(e) => lookup_text(opt_text(*id), opt_text(*day)) == Err::<Seq<char>, LookupError>(e),
        },
{
    match id {
        Some(i) => Ok(signature_sql(i.as_str())),
        None => match day {
            Some(d) => match normalize_date(d.as_str()) {
                Ok(iso) => Ok(day_sql(iso.as_str())),
                Err(_) => Err(LookupError::BadDate),
            },
            None => Err(LookupError::NoFilter),
        },
    }
}

} // verus!
