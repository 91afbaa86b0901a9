use vstd::prelude::*;
use vstd::arithmetic::div_mod::{lemma_fundamental_div_mod, lemma_fundamental_div_mod_converse};

pub mod data_set;
pub mod model;

verus! {

/// Paging information for a listing.
#[derive(Debug, Default)]
pub struct Pager {
    pub pages: u32,
    pub current: u32,
    pub rows_total: u32,
    pub limit: u32,
}

/// Number of pages needed to show `rows_total` rows, `limit` per page;
/// an empty listing still has one page.
pub open spec fn page_count(rows_total: nat, limit: nat) -> nat {
    if rows_total == 0 {
        1
    } else {
        ((rows_total + limit - 1) as nat / limit) as nat
    }
}

proof fn lemma_ceil_div(rows: int, limit: int)
    requires
        rows > 0,
        limit > 0,
    ensures
        rows % limit == 0 ==> (rows + limit - 1) / limit == rows / limit,
        rows % limit != 0 ==> (rows + limit - 1) / limit == rows / limit + 1,
        rows % limit != 0 ==> limit >= 2,
        (rows / limit) * limit <= rows,
{
    let q = rows / limit;
    let r = rows % limit;
    lemma_fundamental_div_mod(rows, limit);
    assert(limit * q == q * limit) by (nonlinear_arith);
    if r == 0 {
        lemma_fundamental_div_mod_converse(rows + limit - 1, limit, q, limit - 1);
    } else {
        assert((q + 1) * limit == q * limit + limit) by (nonlinear_arith);
        lemma_fundamental_div_mod_converse(rows + limit - 1, limit, q + 1, r - 1);
    }
}

/// The pages hold every row, and the last page is not empty: with `limit` rows per
/// page, `page_count` pages cover `rows_total` rows and one page fewer does not.
pub proof fn lemma_pages_cover_rows(rows_total: nat, limit: nat)
    requires
        rows_total > 0,
        limit > 0,
    ensures
        page_count(rows_total, limit) >= 1,
        rows_total <= page_count(rows_total, limit) * limit,
        (page_count(rows_total, limit) - 1) * limit < rows_total,
{
    let rows = rows_total as int;
    let l = limit as int;
    let q = rows / l;
    lemma_ceil_div(rows, l);
    lemma_fundamental_div_mod(rows, l);
    assert(l * q == q * l) by (nonlinear_arith);
    assert(q >= 0) by (nonlinear_arith) requires rows >= 0, l > 0, q == rows / l;
    if rows % l == 0 {
        assert(q >= 1) by (nonlinear_arith) requires rows == q * l, rows > 0, l > 0, q >= 0;
        assert((q - 1) * l == q * l - l) by (nonlinear_arith);
    } else {
        assert((q + 1) * l == q * l + l) by (nonlinear_arith);
    }
}

/// Builds the paging information for `rows_total` rows shown `limit` at a time.
/// A non-empty listing divides by `limit`, so it needs `limit > 0`.
pub fn get_pager(rows_total: u32, current: u32, limit: u32) -> (pager: Pager)
    requires
        rows_total > 0 ==> limit > 0,
    ensures
        pager.pages == page_count(rows_total as nat, limit as nat),
        pager.current == current,
        pager.rows_total == rows_total,
        pager.limit == limit,
{
    let pages = if rows_total > 0 {
        let val = rows_total / limit;
        proof {
            lemma_ceil_div(rows_total as int, limit as int);
            if rows_total % limit != 0 {
                assert(val * 2 <= val * limit) by (nonlinear_arith)
                    requires limit >= 2;
            }
        }
        if rows_total % limit == 0 { val } else { val + 1 }
    } else {
        1
    };
    Pager { pages, current, rows_total, limit }
}

} // verus!
