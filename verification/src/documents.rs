//! Document numbering and the replay guard of idempotent postings.
use vstd::prelude::*;
use crate::error::AppError;
use crate::text::{fmt_padded, format_padded, str_eq, is_blank, str_is_blank, owned};

verus! {

/// `format!("{prefix}{value:06}{suffix}")`.
pub open spec fn document_number_text(prefix: Seq<char>, value: int, suffix: Seq<char>) -> Seq<char> {
    prefix + fmt_padded(value, 6) + suffix
}

/// Consume one number of a document sequence (`row` is its next value, prefix
/// and suffix, if the document type has one): the number is the prefix, the
/// current value padded to six digits, and the suffix; the sequence moves on
/// to the next value. A document type without a sequence is an internal error.
pub fn next_document_number(document_type: &str, row: Option<(i64, String, String)>) -> (r: Result<(String, i64), AppError>)
    requires
        row matches Some((v, _, _)) ==> v < i64::MAX,
    ensures
        row is None ==> (r matches Err(AppError::Internal(m))
            && m@ == "no document sequence configured for '"@ + document_type@ + "'"@),
        r matches Ok((number, next)) ==> row matches Some((v, p, s))
            && number@ == document_number_text(p@, v as int, s@) && next == v + 1,
        row is Some ==> r is Ok,
{
    match row {
        None => {
            let mut m = owned("no document sequence configured for '");
            m.append(document_type);
            m.append("'");
            Err(AppError::Internal(m))
        },
        Some((value, prefix, suffix)) => {
            let mut number = prefix.clone();
            let digits = format_padded(value, 6);
            number.append(digits.as_str());
            number.append(suffix.as_str());
            Ok((number, value + 1))
        },
    }
}

/// Tables whose documents carry idempotency keys.
pub open spec fn replay_table(t: Seq<char>) -> bool {
    ||| t == "sales"@
    ||| t == "purchases"@
    ||| t == "supplier_returns"@
    ||| t == "sales_returns"@
    ||| t == "credit_notes"@
    ||| t == "damage_records"@
}

/// First half of the replay guard: the table must be one of the documented
/// ones (else an internal error); a missing or blank key means there is
/// nothing to look up (`None`); otherwise the key is looked up.
pub fn replay_lookup<'a>(table: &str, idempotency_key: &'a Option<String>) -> (r: Result<Option<&'a String>, AppError>)
    ensures
        !replay_table(table@) <==> r is Err,
        r matches Err(e) ==> e matches AppError::Internal(m)
            && m@ == "replay_guard: invalid table name '"@ + table@ + "'"@,
        r matches Ok(k) ==> match idempotency_key {
            Some(key) => if is_blank(key@) { k is None } else { k == Some(key) },
            None => k is None,
        },
{
    let allowed = str_eq(table, "sales") || str_eq(table, "purchases") || str_eq(table, "supplier_returns")
        || str_eq(table, "sales_returns") || str_eq(table, "credit_notes") || str_eq(table, "damage_records");
    if !allowed {
        let mut m = owned("replay_guard: invalid table name '");
        m.append(table);
        m.append("'");
        return Err(AppError::Internal(m));
    }
    match idempotency_key {
        None => Ok(None),
        Some(key) => if str_is_blank(key.as_str()) { Ok(None) } else { Ok(Some(key)) },
    }
}

/// Second half, once the key was looked up in `table`: a key already bound to
/// this same document replays it (`true`); a key bound to another document is a
/// conflict; an unused key lets the posting proceed (`false`).
pub fn replay_outcome(table: &str, key: &str, existing: Option<i64>, document_id: i64) -> (r: Result<bool, AppError>)
    ensures
        match existing {
            Some(id) => if id == document_id {
                r == Ok::<bool, AppError>(true)
            } else {
                r matches Err(AppError::Conflict(m)) && m@ == "idempotency key '"@ + key@
                    + "' was already used for a different "@ + table@
            },
            None => r == Ok::<bool, AppError>(false),
        },
{
    match existing {
        Some(id) => if id == document_id {
            Ok(true)
        } else {
            let mut m = owned("idempotency key '");
            m.append(key);
            m.append("' was already used for a different ");
            m.append(table);
            Err(AppError::Conflict(m))
        },
        None => Ok(false),
    }
}

} // verus!
