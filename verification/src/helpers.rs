//! Paging of listed records.

use vstd::prelude::*;

verus! {

/// The page asked for, counted from 1, and the number of records on a page.
#[derive(Debug, Clone, Copy, PartialEq, Eq)]
pub struct Paginate {
    pub page: u64,
    pub size: u64,
}

impl Default for Paginate {
    /// The first page, of ten records.
    fn default() -> (p: Self)
        ensures
            p.page == 1,
            p.size == 10,
    {
        Paginate { page: 1, size: 10 }
    }
}

/// One page of records, with the number of records and of pages in all.
#[derive(Debug, Clone, PartialEq, Eq)]
pub struct PaginationResponse<T> {
    pub items: Vec<T>,
    pub record_count: u64,
    pub page_count: u64,
    pub current_page: u64,
}

/// The index, counted from 0, of the page to fetch for the page asked for,
/// counted from 1.
pub fn page_to_fetch(current_page: u64) -> (index: u64)
    requires
        current_page >= 1,
    ensures
        index + 1 == current_page,
{
    current_page - 1
}

/// The page to answer with: the records fetched, or none when fetching them
/// failed, with the counts and the page asked for.
pub fn get_paginated_result<T>(fetched: Option<Vec<T>>, record_count: u64, page_count: u64, current_page: u64) -> (r: PaginationResponse<T>)
    ensures
        r.items@ == (match fetched {
            Some(items) => items@,
            None => Seq::<T>::empty(),
        }),
        r.record_count == record_count,
        r.page_count == page_count,
        r.current_page == current_page,
{
    let items = match fetched {
        Some(items) => items,
        None => Vec::new(),
    };
    PaginationResponse { items, record_count, page_count, current_page }
}

} // verus!
