//! What is said of a list of found records: how many there are, and on how many
//! pages.
use vstd::prelude::*;
use crate::collections::same_text;
use crate::value::{Value, ValueView, pairs};

verus! {

/// Whether `key` is one of the keys that cut a page out of what is found.
pub open spec fn paging_key(key: Seq<char>) -> bool {
    key == "skip"@ || key == "take"@ || key == "pageSize"@ || key == "pageNumber"@
}

/// Whether `key` is one of the keys that cut a page out of what is found.
pub fn is_paging_key(key: &str) -> (r: bool)
    ensures
        r == paging_key(key@),
{
    same_text(key, "skip") || same_text(key, "take") || same_text(key, "pageSize") || same_text(
        key,
        "pageNumber",
    )
}

/// `input` without the entries that cut a page out of what is found: what is
/// asked for when all that is found is counted.
pub open spec fn unpaged(input: ValueView) -> ValueView {
    match input {
        ValueView::Dictionary(entries) => ValueView::Dictionary(
            entries.filter(|e: (Seq<char>, ValueView)| !paging_key(e.0)),
        ),
        _ => input,
    }
}

/// `input` without the entries that cut a page out of what is found.
pub fn without_paging(input: &Value) -> (r: Value)
    ensures
        r@ == unpaged(input@),
{
    match input {
        Value::Dictionary(entries) => {
            let ghost all = pairs(entries@);
            let ghost keep = |e: (Seq<char>, ValueView)| !paging_key(e.0);
            assert(input@->Dictionary_0 =~= all);
            let mut out: Vec<(String, Value)> = Vec::new();
            let mut i: usize = 0;
            assert(all.take(0) =~= Seq::empty());
            assert(pairs(out@) =~= all.take(0).filter(keep)) by {
                all.take(0).lemma_filter_len(keep);
            }
            while i < entries.len()
                invariant
                    i <= entries.len(),
                    all == pairs(entries@),
                    keep == |e: (Seq<char>, ValueView)| !paging_key(e.0),
                    pairs(out@) == all.take(i as int).filter(keep),
                decreases entries.len() - i,
            {
                let ghost before = pairs(out@);
                proof {
                    assert(all.take(i + 1) =~= all.take(i as int).push(all[i as int]));
                    all.take(i as int).lemma_filter_push(all[i as int], keep);
                }
                if !is_paging_key(entries[i].0.as_str()) {
                    out.push((entries[i].0.clone(), entries[i].1.clone()));
                    assert(pairs(out@) =~= before.push(all[i as int]));
                }
                i += 1;
            }
            assert(all.take(i as int) =~= all);
            let r = Value::Dictionary(out);
            assert(r@->Dictionary_0 =~= pairs(out@));
            r
        },
        other => other.clone(),
    }
}

/// Whether `pages` is the least number of pages that hold `count` records at
/// `size` records a page.
pub open spec fn fills(count: int, size: int, pages: int) -> bool {
    &&& 0 <= pages
    &&& pages * size >= count
    &&& pages > 0 ==> (pages - 1) * size < count
}

/// The number of pages that `count` records fill at `size` records a page.
pub open spec fn page_count(count: int, size: int) -> int {
    if count % size == 0 {
        count / size
    } else {
        count / size + 1
    }
}

/// The number of pages is the least that holds all the records.
pub proof fn page_count_fills(count: int, size: int)
    requires
        0 <= count,
        0 < size,
    ensures
        fills(count, size, page_count(count, size)),
{
    let whole = count / size;
    let left = count % size;
    assert(count == whole * size + left && 0 <= left < size && whole >= 0) by (nonlinear_arith)
        requires
            0 <= count,
            0 < size,
            whole == count / size,
            left == count % size,
    ;
    if left != 0 {
        assert(fills(count, size, whole + 1)) by (nonlinear_arith)
            requires
                count == whole * size + left,
                0 < left < size,
                whole >= 0,
        ;
    } else {
        assert(fills(count, size, whole)) by (nonlinear_arith)
            requires
                count == whole * size + left,
                left == 0,
                size > 0,
                whole >= 0,
        ;
    }
}

/// The number of pages that `count` records fill at `page_size` records a page;
/// none where a page holds nothing.
pub fn number_of_pages(count: u64, page_size: u64) -> (r: Option<u64>)
    ensures
        r == if page_size == 0 {
            None
        } else {
            Some(page_count(count as int, page_size as int) as u64)
        },
        page_size > 0 ==> page_count(count as int, page_size as int) <= u64::MAX,
{
    if page_size == 0 {
        return None;
    }
    let whole = count / page_size;
    let left = count % page_size;
    if left != 0 {
        assert(whole < u64::MAX) by (nonlinear_arith)
            requires
                whole == count / page_size,
                left == count % page_size,
                left > 0,
                page_size > 0,
                count <= u64::MAX,
        ;
        Some(whole + 1)
    } else {
        Some(whole)
    }
}

/// What is said of `count` found records: their number, and the number of
/// pages that they fill where `page_size` is a positive number.
pub open spec fn meta_of(count: u64, page_size: Option<ValueView>) -> ValueView {
    let size = match page_size {
        Some(v) => v.number(),
        None => None,
    };
    match size {
        Some(n) if 0 < n <= u64::MAX => ValueView::Dictionary(
            seq![
                ("count"@, ValueView::U64(count)),
                ("numberOfPages"@, ValueView::U64(page_count(count as int, n) as u64)),
            ],
        ),
        _ => ValueView::Dictionary(seq![("count"@, ValueView::U64(count))]),
    }
}

/// What is said of `count` found records, cut into pages of `page_size`.
pub fn find_many_meta(count: u64, page_size: Option<&Value>) -> (r: Value)
    ensures
        r@ == meta_of(
            count,
            match page_size {
                Some(v) => Some(v@),
                None => None,
            },
        ),
{
    let size = match page_size {
        Some(v) => v.as_number(),
        None => None,
    };
    let pages = match size {
        Some(n) => if 0 < n && n <= u64::MAX as i128 {
            number_of_pages(count, n as u64)
        } else {
            None
        },
        None => None,
    };
    let mut entries: Vec<(String, Value)> = Vec::new();
    entries.push((String::from_str("count"), Value::U64(count)));
    match pages {
        Some(pages) => {
            entries.push((String::from_str("numberOfPages"), Value::U64(pages)));
        },
        None => {},
    }
    let r = Value::Dictionary(entries);
    assert(r@->Dictionary_0 =~= pairs(entries@));
    assert(r@->Dictionary_0 =~= meta_of(
        count,
        match page_size {
            Some(v) => Some(v@),
            None => None,
        },
    )->Dictionary_0);
    r
}

} // verus!
