//! The parameters of key and usage listings.

use vstd::prelude::*;
use crate::models::{opt_view, ListFilter};
use crate::text::{trim, trim_str};

verus! {

/// Rows skipped before the requested page.
pub fn page_offset(filter: &ListFilter) -> (r: i64)
    requires
        filter.page == 0 || (filter.page - 1) * filter.page_size <= i64::MAX,
    ensures
        r == (if filter.page == 0 {
            0
        } else {
            (filter.page - 1) * filter.page_size
        }),
{
    let before: u32 = if filter.page == 0 {
        0
    } else {
        filter.page - 1
    };
    let a = before as i64;
    let b = filter.page_size as i64;
    assert(0 <= a * b) by (nonlinear_arith)
        requires
            0 <= a,
            0 <= b,
    ;
    a * b
}

/// The stored status text that the listing is limited to.
pub fn status_clause(filter: &ListFilter) -> (r: Option<&'static str>)
    ensures
        r is Some == filter.status is Some,
        r matches Some(s) ==> s@ == filter.status->0.text(),
{
    match filter.status {
        Some(s) => Some(s.as_str()),
        None => None,
    }
}

/// The `LIKE` pattern that names and keys are matched against: the trimmed search text
/// between `%` wildcards, where that text is not empty.
pub fn search_pattern(filter: &ListFilter) -> (r: Option<String>)
    ensures
        opt_view(r) == (match filter.search {
            Some(s) => if trim(s@).len() > 0 {
                Some("%"@ + trim(s@) + "%"@)
            } else {
                None
            },
            None => None,
        }),
{
    match &filter.search {
        Some(s) => {
            let t = trim_str(s.as_str());
            if t.unicode_len() == 0 {
                None
            } else {
                let mut p = String::from_str("%");
                p.append(t);
                p.append("%");
                Some(p)
            }
        },
        None => None,
    }
}

/// How many usage events a listing returns: the requested number (100 where none is given)
/// brought into 1 to 500.
pub fn usage_event_limit(limit: Option<i64>) -> (r: i64)
    ensures
        r == (match limit {
            Some(l) => if l < 1 {
                1
            } else if l > 500 {
                500
            } else {
                l
            },
            None => 100,
        }),
        1 <= r <= 500,
{
    let l = match limit {
        Some(l) => l,
        None => 100,
    };
    if l < 1 {
        1
    } else if l > 500 {
        500
    } else {
        l
    }
}

} // verus!
