//! Cursor pagination of the list endpoints: one record more than the page is
//! fetched to learn whether another page follows.

use vstd::prelude::*;

verus! {

/// The page size and how many records to fetch for it.
#[derive(Clone, Copy, Debug, PartialEq, Eq, Structural)]
pub struct PageWindow {
    pub limit: u64,
    pub fetch_limit: i64,
}

/// The page size asked for, or the default, and at least 1.
pub open spec fn spec_page_limit(requested: Option<u64>, default_limit: u64) -> u64 {
    let l = match requested {
        Some(l) => l,
        None => default_limit,
    };
    if l < 1 {
        1
    } else {
        l
    }
}

/// The page size as an `i64`, `i64::MAX` where it does not fit.
pub open spec fn spec_limit_i64(limit: u64) -> i64 {
    if limit <= i64::MAX {
        limit as i64
    } else {
        i64::MAX
    }
}

/// The page and fetch sizes: the fetch size is one more than the page size,
/// saturating.
pub fn page_window(requested: Option<u64>, default_limit: u64) -> (r: PageWindow)
    ensures
        r.limit == spec_page_limit(requested, default_limit),
        r.fetch_limit as int == if spec_limit_i64(r.limit) == i64::MAX {
            i64::MAX as int
        } else {
            spec_limit_i64(r.limit) + 1
        },
{
    let requested_limit = match requested {
        Some(l) => l,
        None => default_limit,
    };
    let limit = if requested_limit < 1 {
        1
    } else {
        requested_limit
    };
    let limit_i64: i64 = if limit <= 9223372036854775807u64 {
        limit as i64
    } else {
        i64::MAX
    };
    let fetch_limit = if limit_i64 == i64::MAX {
        i64::MAX
    } else {
        limit_i64 + 1
    };
    PageWindow { limit, fetch_limit }
}

/// The first `limit` of the fetched records, and whether more were
/// fetched.
pub fn take_page<T>(items: Vec<T>, limit: u64) -> (r: (Vec<T>, bool))
    ensures
        r.1 == (items@.len() > limit),
        r.0@ == if r.1 {
            items@.subrange(0, limit as int)
        } else {
            items@
        },
{
    let mut items = items;
    let has_more = items.len() as u64 > limit;
    if has_more {
        items.truncate(limit as usize);
    }
    (items, has_more)
}

} // verus!
