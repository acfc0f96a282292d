//! Page requests and page summaries shared by the list endpoints.

use vstd::prelude::*;

verus! {

/// Integer division that rounds toward zero, as Rust's `/` on signed integers does.
pub open spec fn trunc_div(a: int, b: int) -> int {
    if a >= 0 {
        if b > 0 { a / b } else { -(a / (-b)) }
    } else {
        if b > 0 { -((-a) / b) } else { (-a) / (-b) }
    }
}

/// `a / b` on `i64`, rounding toward zero.
pub fn div_trunc(a: i64, b: i64) -> (q: i64)
    requires
        b != 0,
        !(a == i64::MIN && b == -1),
    ensures
        q == trunc_div(a as int, b as int),
{
    let x: i128 = a as i128;
    let y: i128 = b as i128;
    let ax: i128 = if x >= 0 { x } else { -x };
    let ay: i128 = if y >= 0 { y } else { -y };
    let m: i128 = ax / ay;
    proof {
        assert(m == (ax as int) / (ay as int));
        assert(0 <= m <= ax) by (nonlinear_arith)
            requires m == (ax as int) / (ay as int), ay >= 1, ax >= 0;
        if x < 0 && y < 0 && ax == 0x8000_0000_0000_0000 {
            assert(ay >= 2);
            assert(m <= ax / 2) by (nonlinear_arith)
                requires m == (ax as int) / (ay as int), ay >= 2, ax >= 0;
        }
    }
    let q: i128 = if (x >= 0) == (y >= 0) { m } else { -m };
    q as i64
}

/// A page request: which page, how many items per page, and an optional text filter.
pub struct PageLink {
    pub page: i64,
    pub page_size: i64,
    pub text_search: Option<String>,
}

impl PageLink {
    /// A page request without a text filter.
    pub fn new(page: i64, page_size: i64) -> (r: Self)
        ensures
            r.page == page,
            r.page_size == page_size,
            r.text_search is None,
    {
        PageLink { page, page_size, text_search: None }
    }
}

/// One page of results with the totals the client pages by.
pub struct PageData<T> {
    pub data: Vec<T>,
    pub total_pages: i64,
    pub total_elements: i64,
    pub has_next: bool,
}

/// Page request of the list endpoints whose `page` and `pageSize` are optional:
/// a missing page is page 0, a missing size is 10.
pub fn page_link_or_default(page: Option<i64>, page_size: Option<i64>, text_search: Option<String>) -> (r: PageLink)
    ensures
        r.page == (match page { Some(p) => p, None => 0 }),
        r.page_size == (match page_size { Some(s) => s, None => 10 }),
        r.text_search == text_search,
{
    let p = match page { Some(p) => p, None => 0 };
    let s = match page_size { Some(s) => s, None => 10 };
    PageLink { page: p, page_size: s, text_search }
}

/// Number of pages needed for `total` items, `size` to a page (0 when the size is 0),
/// computed as Rust computes `(total + size - 1) / size`.
pub open spec fn pages_for(total: int, size: int) -> int {
    if size == 0 { 0 } else { trunc_div(total + size - 1, size) }
}

/// Whether another page follows page `page` of `size` items when there are `total` items.
pub open spec fn has_next_page(page: int, size: int, total: int) -> bool {
    (page + 1) * size < total
}

/// The arithmetic of a page summary stays within `i64`.
pub open spec fn summary_fits(page: int, size: int, total: int) -> bool {
    &&& i64::MIN <= total + size <= i64::MAX
    &&& i64::MIN <= total + size - 1 <= i64::MAX
    &&& !(total + size - 1 == i64::MIN && size == -1)
    &&& i64::MIN <= page + 1 <= i64::MAX
    &&& i64::MIN <= (page + 1) * size <= i64::MAX
}

/// Total pages and whether a next page exists, for page `page` of `size` items out of `total`.
pub fn page_summary(page: i64, size: i64, total: i64) -> (r: (i64, bool))
    requires
        summary_fits(page as int, size as int, total as int),
    ensures
        r.0 == pages_for(total as int, size as int),
        r.1 == has_next_page(page as int, size as int, total as int),
{
    let total_pages = if size == 0 { 0 } else { div_trunc(total + size - 1, size) };
    let next = page + 1;
    let has_next = next * size < total;
    (total_pages, has_next)
}

/// For sizes of at least one and a total of at least zero, the page count is the
/// least number of pages that holds every item.
pub proof fn lemma_pages_cover_total(total: int, size: int)
    requires
        size >= 1,
        total >= 0,
    ensures
        pages_for(total, size) * size >= total,
        pages_for(total, size) >= 0,
        total > 0 ==> (pages_for(total, size) - 1) * size < total,
{
    let p = pages_for(total, size);
    assert(p == (total + size - 1) / size);
    assert(p * size >= total && p >= 0 && (total > 0 ==> (p - 1) * size < total)) by (nonlinear_arith)
        requires
            p == (total + size - 1) / size,
            size >= 1,
            total >= 0,
    {
        let q = (total + size - 1) / size;
        let r = (total + size - 1) % size;
        assert(total + size - 1 == q * size + r);
        assert(0 <= r < size);
    }
}

/// With sizes of at least one, a next page exists exactly when the page after
/// `page` is not past the last page.
pub proof fn lemma_has_next_matches_page_count(page: int, size: int, total: int)
    requires
        size >= 1,
        total >= 0,
        page >= 0,
    ensures
        has_next_page(page, size, total) <==> page + 1 < pages_for(total, size),
{
    lemma_pages_cover_total(total, size);
    let p = pages_for(total, size);
    if total == 0 {
        vstd::arithmetic::div_mod::lemma_basic_div(size - 1, size);
    }
    if page + 1 < p {
        vstd::arithmetic::mul::lemma_mul_inequality(page + 1, p - 1, size);
    }
    if page + 1 >= p {
        vstd::arithmetic::mul::lemma_mul_inequality(p, page + 1, size);
    }
}

} // verus!
