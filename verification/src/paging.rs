//! Page arithmetic: how many pages a result set has, where a page starts, and
//! which page stays valid when the result set shrinks.

use vstd::prelude::*;
use vstd::arithmetic::div_mod::{lemma_fundamental_div_mod, lemma_mod_bound};

verus! {

/// The page size of a fresh query.
pub const DEFAULT_PAGE_SIZE: i64 = 5;

/// The page sizes that may be selected.
pub open spec fn valid_page_size(size: int) -> bool {
    size == 5 || size == 10 || size == 20
}

/// `max(1, ceil(total / size))`: the number of pages of `size` records that
/// `total` records fill, where an empty result still has one page.
pub open spec fn total_pages_of(total: int, size: int) -> int
    recommends
        size >= 1,
{
    if total <= 0 {
        1
    } else {
        (total + size - 1) / size
    }
}

/// The number of records that stand before the first record of `page`.
pub open spec fn offset_of(page: int, size: int) -> int {
    (page - 1) * size
}

/// `target` moved into `[1, pages]`.
pub open spec fn clamp_page(target: int, pages: int) -> int
    recommends
        pages >= 1,
{
    if target < 1 {
        1
    } else if target > pages {
        pages
    } else {
        target
    }
}

/// The page that stays current once `deleted` of `total` records are gone:
/// `page` itself while it is still a page of the smaller result, else the last
/// page of the smaller result.
pub open spec fn page_after_delete(page: int, size: int, total: int, deleted: int) -> int
    recommends
        size >= 1,
{
    let pages = total_pages_of(total - deleted, size);
    if page > pages {
        pages
    } else {
        page
    }
}

/// The 1-based position of the first record of `page`.
pub open spec fn range_start_of(page: int, size: int) -> int {
    offset_of(page, size) + 1
}

/// The 1-based position of the last record shown on `page`.
pub open spec fn range_end_of(page: int, size: int, total: int) -> int {
    let full = range_start_of(page, size) + size - 1;
    if full < total {
        full
    } else {
        total
    }
}

/// The positions of the first and last record of a page, out of `total`
/// matching records.
#[derive(Debug, Clone, Copy, PartialEq, Eq)]
pub struct DisplayRange {
    pub start: i64,
    pub end: i64,
    pub total: i64,
}

/// The positions that a page shows: none where nothing matches, else
/// `start = (page - 1) * size + 1` and `end = min(start + size - 1, total)`.
pub open spec fn display_range_of(page: int, size: int, total: int) -> Option<(int, int)> {
    if total <= 0 {
        None
    } else {
        Some((range_start_of(page, size), range_end_of(page, size, total)))
    }
}

/// The first and last position that `range` names, if it names any.
pub open spec fn positions_of(range: Option<DisplayRange>) -> Option<(int, int)> {
    match range {
        Some(shown) => Some((shown.start as int, shown.end as int)),
        None => None,
    }
}

/// The pages hold every record, and the last page is not empty unless the
/// result is: the page count `q` is at least 1 with `total <= q * size`, and
/// `(q - 1) * size < total` for a result that is not empty.
pub proof fn lemma_total_pages_bounds(total: int, size: int)
    requires
        size >= 1,
    ensures
        total_pages_of(total, size) >= 1,
        total <= total_pages_of(total, size) * size,
        total >= 1 ==> offset_of(total_pages_of(total, size), size) < total,
{
    if total >= 1 {
        let x = total + size - 1;
        let q = x / size;
        lemma_fundamental_div_mod(x, size);
        lemma_mod_bound(x, size);
        assert((q - 1) * size == q * size - size) by (nonlinear_arith);
        if q < 1 {
            assert(q * size <= 0) by (nonlinear_arith)
                requires
                    q <= 0,
                    size >= 1,
            ;
        }
    }
}

/// The page count is the least number of pages, and at least one, that holds
/// every record: no smaller positive number of pages of `size` records has
/// room for `total` records.
pub proof fn lemma_total_pages_is_least(total: int, size: int, pages: int)
    requires
        size >= 1,
        pages >= 1,
        pages * size >= total,
    ensures
        total_pages_of(total, size) <= pages,
{
    if total >= 1 {
        let q = total_pages_of(total, size);
        lemma_total_pages_bounds(total, size);
        if q > pages {
            assert((q - 1) * size >= pages * size) by (nonlinear_arith)
                requires
                    q - 1 >= pages,
                    size >= 1,
            ;
        }
    }
}

/// A larger result never has fewer pages.
pub proof fn lemma_total_pages_monotone(smaller: int, larger: int, size: int)
    requires
        size >= 1,
        smaller <= larger,
    ensures
        total_pages_of(smaller, size) <= total_pages_of(larger, size),
{
    lemma_total_pages_bounds(larger, size);
    lemma_total_pages_is_least(smaller, size, total_pages_of(larger, size));
}

/// Every page up to the last one starts inside the result, so none of them is
/// empty unless the result is.
pub proof fn lemma_page_in_range_starts_inside(page: int, size: int, total: int)
    requires
        size >= 1,
        total >= 1,
        1 <= page <= total_pages_of(total, size),
    ensures
        0 <= offset_of(page, size) < total,
{
    lemma_total_pages_bounds(total, size);
    let q = total_pages_of(total, size);
    assert((page - 1) * size <= (q - 1) * size) by (nonlinear_arith)
        requires
            page <= q,
            size >= 1,
    ;
    assert((page - 1) * size >= 0) by (nonlinear_arith)
        requires
            page >= 1,
            size >= 1,
    ;
}

/// When the last page holds a single record and is not the first page,
/// deleting that record makes the page before it the current one.
pub proof fn lemma_single_row_on_last_page(page: int, size: int)
    requires
        size >= 1,
        page > 1,
    ensures
        total_pages_of(offset_of(page, size) + 1, size) == page,
        page_after_delete(page, size, offset_of(page, size) + 1, 1) == page - 1,
{
    let before = offset_of(page, size);
    assert(before >= size) by (nonlinear_arith)
        requires
            before == (page - 1) * size,
            page - 1 >= 1,
            size >= 1,
    ;
    // The smaller result fills exactly `page - 1` pages.
    lemma_total_pages_is_least(before, size, page - 1);
    lemma_total_pages_bounds(before, size);
    let q = total_pages_of(before, size);
    if q < page - 1 {
        assert(q * size < (page - 1) * size) by (nonlinear_arith)
            requires
                q < page - 1,
                size >= 1,
        ;
    }
    // The larger result needs one page more.
    lemma_total_pages_bounds(before + 1, size);
    let p = total_pages_of(before + 1, size);
    assert(page * size >= before + 1) by (nonlinear_arith)
        requires
            before == (page - 1) * size,
            size >= 1,
    ;
    lemma_total_pages_is_least(before + 1, size, page);
    if p < page {
        assert(p * size <= (page - 1) * size) by (nonlinear_arith)
            requires
                p <= page - 1,
                size >= 1,
        ;
    }
}

/// Whether `size` is one of the page sizes that may be selected.
pub fn is_valid_page_size(size: i64) -> (ok: bool)
    ensures
        ok == valid_page_size(size as int),
{
    size == 5 || size == 10 || size == 20
}

/// The number of pages of `page_size` records that `total_count` records fill.
pub fn total_pages(total_count: i64, page_size: i64) -> (pages: i64)
    requires
        page_size >= 1,
    ensures
        pages == total_pages_of(total_count as int, page_size as int),
{
    if total_count <= 0 {
        1
    } else {
        proof {
            let t = total_count as int;
            let s = page_size as int;
            vstd::arithmetic::div_mod::lemma_div_plus_one(t - 1, s);
            assert(t * s >= t) by (nonlinear_arith)
                requires
                    t >= 1,
                    s >= 1,
            ;
            lemma_total_pages_is_least(t, s, t);
        }
        (total_count - 1) / page_size + 1
    }
}

/// `target` moved into `[1, pages]`.
pub fn clamp(target: i64, pages: i64) -> (page: i64)
    requires
        pages >= 1,
    ensures
        page == clamp_page(target as int, pages as int),
{
    if target < 1 {
        1
    } else if target > pages {
        pages
    } else {
        target
    }
}

/// The number of records before the first record of `page`, where `page` and
/// `page_size` are positive and the number fits an `i64`; else nothing.
pub fn offset(page: i64, page_size: i64) -> (skipped: Option<i64>)
    ensures
        skipped is Some <==> page >= 1 && page_size >= 1 && offset_of(page as int, page_size as int)
            <= i64::MAX,
        skipped matches Some(n) ==> n == offset_of(page as int, page_size as int),
{
    if page < 1 || page_size < 1 {
        return None;
    }
    proof {
        assert((page - 1) * page_size >= 0) by (nonlinear_arith)
            requires
                page >= 1,
                page_size >= 1,
        ;
    }
    (page - 1).checked_mul(page_size)
}

/// The positions of the first and last record that `page` shows out of
/// `total_count` matching records, or nothing where none matches.
pub fn display_range(page: i64, page_size: i64, total_count: i64) -> (range: Option<DisplayRange>)
    requires
        page >= 1,
        page_size >= 1,
        offset_of(page as int, page_size as int) < i64::MAX,
    ensures
        positions_of(range) == display_range_of(
            page as int,
            page_size as int,
            total_count as int,
        ),
        range matches Some(shown) ==> shown.total == total_count,
{
    if total_count <= 0 {
        return None;
    }
    proof {
        assert((page - 1) * page_size >= 0) by (nonlinear_arith)
            requires
                page >= 1,
                page_size >= 1,
        ;
    }
    let start: i64 = (page - 1) * page_size + 1;
    let end: i64 = if start <= total_count && total_count - start > page_size - 1 {
        start + (page_size - 1)
    } else {
        total_count
    };
    Some(DisplayRange { start, end, total: total_count })
}

/// The page that stays current once `deleted` of `total_count` records are
/// gone.
pub fn reclamp(page: i64, page_size: i64, total_count: i64, deleted: u64) -> (kept: i64)
    requires
        page_size >= 1,
    ensures
        kept == page_after_delete(page as int, page_size as int, total_count as int, deleted as int),
{
    let pages: i64 = if total_count <= 0 || deleted >= total_count as u64 {
        1
    } else {
        total_pages(total_count - deleted as i64, page_size)
    };
    if page > pages {
        pages
    } else {
        page
    }
}

} // verus!
