//! Filters of the read-only audit trail view.
use vstd::prelude::*;
use crate::text::{is_ascii_digit, trim, chars_of, trim_bounds, string_of_range, owned};

verus! {

/// Filter of the audit trail, as the audit viewer submits it.
#[derive(Debug)]
pub struct AuditFilter {
    pub action: Option<String>,
    pub entity_type: Option<String>,
    pub entity_id: Option<String>,
    pub user_id: Option<i64>,
    pub from: Option<String>,
    pub to: Option<String>,
    pub limit: u32,
    pub offset: u32,
}

/// A bare wall-clock date as the audit viewer picks it: ten characters, each
/// an ASCII digit or `-`.
pub open spec fn is_bare_date(v: Seq<char>) -> bool {
    v.len() == 10 && forall|i: int| 0 <= i < v.len() ==> (is_ascii_digit(#[trigger] v[i]) || v[i] == '-')
}

pub open spec fn day_start_suffix() -> Seq<char> {
    seq!['T', '0', '0', ':', '0', '0', ':', '0', '0', '.', '0', '0', '0', 'Z']
}

pub open spec fn day_end_suffix() -> Seq<char> {
    seq!['T', '2', '3', ':', '5', '9', ':', '5', '9', '.', '9', '9', '9', 'Z']
}

/// The bound a date filter stands for: nothing for a blank one; a bare date
/// widened to the first or the last millisecond of that day; anything else
/// trimmed and kept.
pub open spec fn bound_of(value: Seq<char>, end_of_day: bool) -> Option<Seq<char>> {
    let v = trim(value);
    if v.len() == 0 {
        None
    } else if is_bare_date(v) {
        Some(v + if end_of_day { day_end_suffix() } else { day_start_suffix() })
    } else {
        Some(v)
    }
}

/// Normalize a date filter bound. A bare wall-clock date (`YYYY-MM-DD`) is
/// expanded to a full RFC 3339 instant covering that whole day; anything else
/// passes through trimmed.
pub fn normalize_bound(value: &str, end_of_day: bool) -> (r: Option<String>)
    ensures
        r matches Some(s) ==> bound_of(value@, end_of_day) == Some(s@),
        r is None <==> bound_of(value@, end_of_day) is None,
{
    let chars = chars_of(value);
    let (lo, hi) = trim_bounds(&chars);
    if lo == hi {
        return None;
    }
    let mut v = string_of_range(&chars, lo, hi);
    let ghost tv = chars@.subrange(lo as int, hi as int);
    if hi - lo == 10 {
        let mut i = lo;
        let mut bare = true;
        while i < hi
            invariant
                lo <= i <= hi <= chars.len(),
                hi - lo == 10,
                tv == chars@.subrange(lo as int, hi as int),
                bare == forall|j: int| lo <= j < i ==> (is_ascii_digit(#[trigger] chars@[j]) || chars@[j] == '-'),
            decreases hi - i,
        {
            let c = chars[i];
            if !(('0' <= c && c <= '9') || c == '-') {
                bare = false;
            }
            i += 1;
        }
        assert(bare == is_bare_date(tv)) by {
            if bare {
                assert forall|k: int| 0 <= k < tv.len() implies (is_ascii_digit(#[trigger] tv[k]) || tv[k] == '-') by {
                    assert(tv[k] == chars@[lo + k]);
                }
            } else {
                let j = choose|j: int| lo <= j < hi && !(is_ascii_digit(#[trigger] chars@[j]) || chars@[j] == '-');
                assert(tv[j - lo] == chars@[j]);
            }
        }
        if bare {
            let suffix = if end_of_day { owned("T23:59:59.999Z") } else { owned("T00:00:00.000Z") };
            proof {
                reveal_strlit("T23:59:59.999Z");
                reveal_strlit("T00:00:00.000Z");
                assert(suffix@ =~= if end_of_day { day_end_suffix() } else { day_start_suffix() });
            }
            v.append(suffix.as_str());
        }
    }
    Some(v)
}

/// Page size of an audit query: `limit` clamped to `1..=500`.
pub fn page_limit(filter: &AuditFilter) -> (r: i64)
    ensures
        r == if filter.limit < 1 { 1 } else if filter.limit > 500 { 500 } else { filter.limit as int },
{
    if filter.limit < 1 {
        1
    } else if filter.limit > 500 {
        500
    } else {
        filter.limit as i64
    }
}

} // verus!
