use vstd::prelude::*;

use crate::sql::{
    count_query, count_sql, normalize_sql, normalized, page_query, upper_of, window_sql,
};

verus! {

/// The number of rows per page used when the caller asks for zero.
pub const DEFAULT_PAGE_SIZE: u32 = 100;

/// The largest number of rows per page that is ever served.
pub const MAX_PAGE_SIZE: u32 = 1000;

/// The page size actually served for a requested one.
pub open spec fn effective_page_size(requested: u32) -> u32 {
    if requested == 0 {
        DEFAULT_PAGE_SIZE
    } else if requested > MAX_PAGE_SIZE {
        MAX_PAGE_SIZE
    } else {
        requested
    }
}

/// Validates a requested page size: zero becomes the default, larger
/// requests are capped at the maximum.
pub fn validate_page_size(requested: u32) -> (r: u32)
    ensures
        r == effective_page_size(requested),
        1 <= r <= MAX_PAGE_SIZE,
{
    if requested == 0 {
        DEFAULT_PAGE_SIZE
    } else if requested > MAX_PAGE_SIZE {
        MAX_PAGE_SIZE
    } else {
        requested
    }
}

/// The number of rows that precede a page.
pub fn page_offset(page: u32, page_size: u32) -> (r: u64)
    ensures
        r == page as int * page_size as int,
{
    assert(page as int * page_size as int <= u32::MAX as int * u32::MAX as int)
        by (nonlinear_arith);
    page as u64 * page_size as u64
}

/// Whether rows remain after the page that starts at `offset`.
pub open spec fn spec_has_more(offset: int, page_size: int, total_count: int) -> bool {
    offset + page_size < total_count
}

/// Whether rows remain after the page that starts at `offset` and holds
/// `page_size` rows, out of `total_count`.
pub fn has_more(offset: u64, page_size: u32, total_count: u64) -> (r: bool)
    ensures
        r == spec_has_more(offset as int, page_size as int, total_count as int),
{
    if offset > u64::MAX - page_size as u64 {
        false
    } else {
        offset + (page_size as u64) < total_count
    }
}

/// The rows of a page: those of `rows` from `offset` on, at most `size` of
/// them.
pub open spec fn window<T>(rows: Seq<T>, offset: int, size: int) -> Seq<T> {
    let lo = if offset < rows.len() { offset } else { rows.len() as int };
    let hi = if offset + size < rows.len() { offset + size } else { rows.len() as int };
    rows.subrange(lo, hi)
}

/// Pages `0 .. n` of `rows`, one after another.
pub open spec fn first_pages<T>(rows: Seq<T>, size: int, n: nat) -> Seq<T>
    decreases n,
{
    if n == 0 {
        Seq::empty()
    } else {
        first_pages(rows, size, (n - 1) as nat) + window(rows, (n - 1) * size, size)
    }
}

proof fn lemma_first_pages_prefix<T>(rows: Seq<T>, size: int, n: nat)
    requires
        size > 0,
        n * size <= rows.len(),
    ensures
        first_pages(rows, size, n) =~= rows.subrange(0, n * size),
    decreases n,
{
    if n > 0 {
        assert((n - 1) * size + size == n * size) by (nonlinear_arith);
        assert((n - 1) * size >= 0) by (nonlinear_arith)
            requires n >= 1, size > 0;
        lemma_first_pages_prefix(rows, size, (n - 1) as nat);
        assert(window(rows, (n - 1) * size, size) =~= rows.subrange((n - 1) * size, n * size));
        assert(first_pages(rows, size, n) == first_pages(rows, size, (n - 1) as nat) + window(
            rows,
            (n - 1) * size,
            size,
        ));
        assert(rows.subrange(0, (n - 1) * size) + rows.subrange((n - 1) * size, n * size)
            =~= rows.subrange(0, n * size));
    } else {
        assert(n * size == 0) by (nonlinear_arith)
            requires n == 0;
    }
}

/// Where the page size divides the row count, the pages from the first to
/// the last, put one after another, are exactly the rows, in their order.
pub proof fn lemma_pages_cover_rows<T>(rows: Seq<T>, page_size: u32)
    requires
        1 <= page_size,
        (rows.len() as int) % (page_size as int) == 0,
    ensures
        first_pages(rows, page_size as int, ((rows.len() as int) / (page_size as int)) as nat)
            =~= rows,
{
    let p = page_size as int;
    let n = (rows.len() as int) / p;
    assert(n * p == rows.len()) by (nonlinear_arith)
        requires n == (rows.len() as int) / p, (rows.len() as int) % p == 0, p >= 1;
    lemma_first_pages_prefix(rows, p, n as nat);
    assert(rows.subrange(0, rows.len() as int) =~= rows);
}

/// Of `total_count` rows served `page_size` at a time, rows remain after
/// page `page` exactly when `(page + 1) * page_size < total_count`; where the
/// page size divides the row count, the last page and any page past it
/// report none; a page that starts past the last row holds no rows.
pub proof fn lemma_has_more_boundary<T>(rows: Seq<T>, page: u32, page_size: u32)
    requires
        1 <= page_size,
    ensures
        spec_has_more(page as int * page_size as int, page_size as int, rows.len() as int)
            <==> (page as int + 1) * (page_size as int) < rows.len(),
        (rows.len() as int) % (page_size as int) == 0 && page as int >= (rows.len() as int) / (
            page_size as int) - 1 ==> !spec_has_more(
            page as int * page_size as int,
            page_size as int,
            rows.len() as int,
        ),
        page as int * page_size as int >= rows.len() ==> window(
            rows,
            page as int * page_size as int,
            page_size as int,
        ).len() == 0,
{
    let p = page_size as int;
    let t = rows.len() as int;
    let k = page as int;
    assert((k + 1) * p == k * p + p) by (nonlinear_arith);
    if t % p == 0 && k >= t / p - 1 {
        assert((t / p) * p == t) by (nonlinear_arith)
            requires p >= 1, t % p == 0;
        assert((t / p) * p <= (k + 1) * p) by (nonlinear_arith)
            requires k + 1 >= t / p, p >= 1;
    }
}

/// The two statements that serve one page, with the window they read.
pub struct PagePlan {
    /// Counts the rows of the whole statement.
    pub count_sql: String,
    /// Reads the rows of the page.
    pub page_sql: String,
    /// The page size served.
    pub page_size: u32,
    /// The number of rows before the page.
    pub offset: u64,
}

impl PagePlan {
    /// This plan serves page `page` of `sql` for the requested page size.
    pub open spec fn serves(&self, sql: Seq<char>, page: u32, page_size: u32) -> bool {
        let size = effective_page_size(page_size);
        let offset = page as int * size as int;
        &&& self.count_sql@ == count_query(normalized(sql))
        &&& self.page_sql@ == page_query(
            normalized(sql),
            upper_of(normalized(sql)),
            size as nat,
            offset as nat,
        )
        &&& self.page_size == size
        &&& self.offset == offset
    }
}

/// Plans one page of a statement: validates the page size, finds the
/// offset, and writes the counting and the windowed statements.
pub fn plan_page(sql: &str, page: u32, page_size: u32) -> (r: PagePlan)
    ensures
        r.serves(sql@, page, page_size),
{
    let size = validate_page_size(page_size);
    let offset = page_offset(page, size);
    let cleaned = normalize_sql(sql);
    let counting = count_sql(cleaned.as_str());
    let windowed = window_sql(sql, size, offset);
    PagePlan { count_sql: counting, page_sql: windowed, page_size: size, offset }
}

/// All pages of one statement are counted by the same statement, whatever
/// the page and the page size: the total count they report is the same.
pub proof fn lemma_count_same_for_all_pages(
    sql: Seq<char>,
    a: PagePlan,
    page_a: u32,
    size_a: u32,
    b: PagePlan,
    page_b: u32,
    size_b: u32,
)
    requires
        a.serves(sql, page_a, size_a),
        b.serves(sql, page_b, size_b),
    ensures
        a.count_sql@ == b.count_sql@,
{
}

} // verus!
