//! The exact text and positional parameters of one durable commit: a
//! single multi-row insert sized to the flushed batch, binding every
//! field of every record in the fixed column order (text, source
//! address, sequence, facility, level, out-of-sequence flag,
//! sequence-reset flag), with absent optional fields bound as null.
//! The unverified shell prepares and executes the statement on the
//! store connection; everything it binds is computed and pinned here.

use vstd::prelude::*;
use vstd::string::StringExecFns;
use crate::record::Row;

verus! {

/// Statement that creates the fixed messages table when absent. The
/// schema matches the record's fields in order.
pub fn create_table_sql() -> (s: &'static str)
    ensures
        s@ == "CREATE TABLE IF NOT EXISTS messages (text TEXT, src TEXT, seq INTEGER, facility INTEGER, level INTEGER, oos INTEGER, seq_reset INTEGER)"@,
{
    "CREATE TABLE IF NOT EXISTS messages (text TEXT, src TEXT, seq INTEGER, facility INTEGER, level INTEGER, oos INTEGER, seq_reset INTEGER)"
}

/// The VALUES clause for `k` rows: one seven-placeholder group per row,
/// comma-separated.
pub open spec fn values_clause(k: int) -> Seq<char>
    decreases k,
{
    if k <= 1 {
        " (?, ?, ?, ?, ?, ?, ?)"@
    } else {
        " (?, ?, ?, ?, ?, ?, ?),"@ + values_clause(k - 1)
    }
}

/// The full insert statement for a batch of `k` rows.
pub open spec fn insert_statement(k: int) -> Seq<char> {
    "INSERT INTO messages (text, src, seq, facility, level, oos, seq_reset) VALUES"@
        + values_clause(k)
}

/// Build the multi-row insert statement sized exactly to the batch.
pub fn insert_statement_sql(batch_size: usize) -> (sql: String)
    requires
        batch_size >= 1,
    ensures
        sql@ == insert_statement(batch_size as int),
{
    let mut sql = String::from_str(
        "INSERT INTO messages (text, src, seq, facility, level, oos, seq_reset) VALUES",
    );
    let mut remaining: usize = batch_size;
    while remaining > 1
        invariant
            1 <= remaining <= batch_size,
            sql@ + values_clause(remaining as int) == insert_statement(batch_size as int),
        decreases remaining,
    {
        let ghost before = sql@;
        sql.append(" (?, ?, ?, ?, ?, ?, ?),");
        proof {
            assert(values_clause(remaining as int) == " (?, ?, ?, ?, ?, ?, ?),"@ + values_clause(
                remaining as int - 1,
            ));
            assert(sql@ + values_clause(remaining as int - 1) =~= before + values_clause(
                remaining as int,
            ));
        }
        remaining = remaining - 1;
    }
    let ghost before = sql@;
    sql.append(" (?, ?, ?, ?, ?, ?, ?)");
    proof {
        assert(values_clause(1) == " (?, ?, ?, ?, ?, ?, ?)"@);
        assert(sql@ =~= before + values_clause(1));
    }
    sql
}

/// One positional parameter of the insert: null, an integer, or text.
/// The shell converts these one for one into the store's value types.
#[derive(Debug)]
pub enum SqlParam {
    Null,
    Uint(u64),
    Text(String),
}

/// How an optional sequence number binds.
pub open spec fn opt_u64_param(v: Option<u64>) -> SqlParam {
    match v {
        Some(x) => SqlParam::Uint(x),
        None => SqlParam::Null,
    }
}

/// How an optional facility or level binds.
pub open spec fn opt_u8_param(v: Option<u8>) -> SqlParam {
    match v {
        Some(x) => SqlParam::Uint(x as u64),
        None => SqlParam::Null,
    }
}

/// How an optional flag binds: one for true, zero for false.
pub open spec fn opt_flag_param(v: Option<bool>) -> SqlParam {
    match v {
        Some(b) => SqlParam::Uint(
            if b {
                1u64
            } else {
                0u64
            },
        ),
        None => SqlParam::Null,
    }
}

/// The seven parameters of one record, in the fixed column order.
pub open spec fn row_params(r: Row) -> Seq<SqlParam> {
    seq![
        SqlParam::Text(r.text),
        SqlParam::Text(r.src),
        opt_u64_param(r.seq),
        opt_u8_param(r.facility),
        opt_u8_param(r.level),
        opt_flag_param(r.oos),
        opt_flag_param(r.seq_reset),
    ]
}

/// The parameters of a whole batch: each record's seven values, records
/// in batch order.
pub open spec fn batch_params(rows: Seq<Row>) -> Seq<SqlParam>
    decreases rows.len(),
{
    if rows.len() == 0 {
        Seq::empty()
    } else {
        batch_params(rows.drop_last()) + row_params(rows.last())
    }
}

/// A batch of `k` records binds exactly `7 * k` parameters — precisely
/// filling the `k` placeholder groups of [`insert_statement_sql`], so a
/// flush of `k` records commits exactly `k` rows.
pub proof fn lemma_batch_params_len(rows: Seq<Row>)
    ensures
        batch_params(rows).len() == 7 * rows.len(),
    decreases rows.len(),
{
    if rows.len() > 0 {
        lemma_batch_params_len(rows.drop_last());
    }
}

/// Bind every field of every record positionally, in batch order.
pub fn bind_params(rows: &Vec<Row>) -> (params: Vec<SqlParam>)
    ensures
        params@ == batch_params(rows@),
{
    let mut params: Vec<SqlParam> = Vec::new();
    let mut i: usize = 0;
    while i < rows.len()
        invariant
            0 <= i <= rows@.len(),
            params@ == batch_params(rows@.take(i as int)),
        decreases rows@.len() - i,
    {
        let ghost before = params@;
        let row = &rows[i];
        params.push(SqlParam::Text(row.text.clone()));
        params.push(SqlParam::Text(row.src.clone()));
        params.push(
            match row.seq {
                Some(x) => SqlParam::Uint(x),
                None => SqlParam::Null,
            },
        );
        params.push(
            match row.facility {
                Some(x) => SqlParam::Uint(x as u64),
                None => SqlParam::Null,
            },
        );
        params.push(
            match row.level {
                Some(x) => SqlParam::Uint(x as u64),
                None => SqlParam::Null,
            },
        );
        params.push(
            match row.oos {
                Some(b) => SqlParam::Uint(
                    if b {
                        1
                    } else {
                        0
                    },
                ),
                None => SqlParam::Null,
            },
        );
        params.push(
            match row.seq_reset {
                Some(b) => SqlParam::Uint(
                    if b {
                        1
                    } else {
                        0
                    },
                ),
                None => SqlParam::Null,
            },
        );
        proof {
            assert(rows@.take(i as int + 1).drop_last() =~= rows@.take(i as int));
            assert(rows@.take(i as int + 1).last() == rows@[i as int]);
            assert(batch_params(rows@.take(i as int + 1)) == batch_params(rows@.take(i as int))
                + row_params(rows@[i as int]));
            assert(params@ =~= before + row_params(rows@[i as int]));
        }
        i = i + 1;
    }
    proof {
        assert(rows@.take(rows@.len() as int) =~= rows@);
    }
    params
}

} // verus!
