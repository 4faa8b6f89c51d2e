use vstd::prelude::*;

verus! {

/// Negative pagination values are treated as zero.
pub open spec fn clamp0(v: int) -> int {
    if v < 0 {
        0
    } else {
        v
    }
}

/// The effective offset of a page: the given one, or 0 when absent.
pub open spec fn eff_offset(offset: Option<i64>) -> int {
    match offset {
        Some(v) => clamp0(v as int),
        None => 0,
    }
}

/// The effective size of a page: the given one, or the fixed cap of
/// 100 when absent.
pub open spec fn eff_count(count: Option<i64>) -> int {
    match count {
        Some(v) => clamp0(v as int),
        None => 100,
    }
}

/// The page `[offset, offset + count)` of an ordered result set.
/// A page that starts or ends past the end is cut short; a page
/// entirely past the end is empty, never an error.
pub open spec fn page<T>(s: Seq<T>, offset: int, count: int) -> Seq<T> {
    let o = clamp0(offset);
    let c = clamp0(count);
    let lo = if o <= s.len() {
        o
    } else {
        s.len() as int
    };
    let hi = if o + c <= s.len() {
        o + c
    } else {
        s.len() as int
    };
    s.subrange(lo, hi)
}

/// A page is always a contiguous piece of the result set it was taken
/// from: pagination drops rows at the ends but never reorders,
/// repeats, or invents one.
pub proof fn lemma_page_is_infix<T>(s: Seq<T>, offset: int, count: int)
    ensures
        page(s, offset, count).len() <= count || count < 0,
        forall|k: int|
            0 <= k < page(s, offset, count).len() ==> #[trigger] page(s, offset, count)[k]
                == s[clamp0(offset) + k],
{
}

} // verus!
