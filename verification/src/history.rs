//! The chat history records and their pagination arithmetic.  The store
//! itself is an ordinary relational database owned by the surrounding
//! application; the records it exchanges, and the page arithmetic its
//! queries are built from, live here.

use vstd::prelude::*;

verus! {

/// One conversation.
#[derive(Debug, Clone)]
pub struct Session {
    pub id: String,
    pub title: String,
    pub is_favorite: bool,
    pub created_at: i64,
    pub updated_at: i64,
}

/// One message of a conversation.
#[derive(Debug, Clone)]
pub struct Message {
    pub id: String,
    pub session_id: String,
    pub role: String,
    pub content: String,
    pub timestamp: i64,
}

/// One page of query results.
#[derive(Debug)]
pub struct PaginatedResult<T> {
    pub items: Vec<T>,
    pub total: i64,
    pub page: i32,
    pub page_size: i32,
    pub has_more: bool,
}

/// The offset of a one-based page.
pub fn page_offset(page: i32, page_size: i32) -> (r: i32)
    requires
        1 <= page,
        0 <= page_size,
        (page - 1) * page_size <= i32::MAX,
    ensures
        r == (page - 1) * page_size,
{
    (page - 1) * page_size
}

/// Assemble one page of query results.  `has_more` holds exactly when rows
/// remain beyond this page.
pub fn paginate<T>(items: Vec<T>, total: i64, page: i32, page_size: i32) -> (r: PaginatedResult<T>)
    requires
        1 <= page,
        0 <= page_size,
        (page - 1) * page_size <= i32::MAX,
        (page as int) * (page_size as int) <= i32::MAX,
    ensures
        r.items == items,
        r.total == total,
        r.page == page,
        r.page_size == page_size,
        r.has_more == ((page - 1) * page_size + page_size < total),
{
    let offset = page_offset(page, page_size);
    proof {
        assert((page - 1) * page_size + page_size == (page as int) * (page_size as int))
            by (nonlinear_arith);
    }
    let has_more = ((offset + page_size) as i64) < total;
    PaginatedResult { items, total, page, page_size, has_more }
}

} // verus!
