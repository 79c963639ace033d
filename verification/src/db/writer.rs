//! The decisions the database writes make on what the database answers.
use vstd::prelude::*;

verus! {

/// The next deterministic id of a table from `COALESCE(MAX(id), 0) + 1`:
/// that value, or 1 where the query gave none.
pub fn next_id_or_first(next: Option<u64>) -> (r: u64)
    ensures
        r == match next {
            Some(n) => n,
            None => 1,
        },
{
    match next {
        Some(n) => n,
        None => 1,
    }
}

/// Whether an `INSERT ... ON DUPLICATE KEY UPDATE` changed a row: MySQL
/// reports 1 affected row for an insert, 2 for an update, 0 for no change.
pub fn upsert_changed(rows: u64) -> (r: bool)
    ensures
        r == (rows == 1 || rows == 2),
{
    rows == 1 || rows == 2
}

} // verus!
