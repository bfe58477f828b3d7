//! Suppression of the third and later consecutive repeats of an event.
use vstd::prelude::*;

verus! {

/// The element at `i` is kept: it is not the third (or later) element of a
/// run of equal ids.
pub open spec fn keep_at(s: Seq<u64>, i: int) -> bool {
    !(i >= 2 && s[i] == s[i - 1] && s[i - 1] == s[i - 2])
}

/// `s` with every run of equal ids cut to its first two elements.
pub open spec fn collapse(s: Seq<u64>) -> Seq<u64>
    decreases s.len(),
{
    if s.len() == 0 {
        s
    } else if keep_at(s, s.len() - 1) {
        collapse(s.drop_last()).push(s.last())
    } else {
        collapse(s.drop_last())
    }
}

/// No id occurs three or more times in a row in `s`.
pub open spec fn no_triple(s: Seq<u64>) -> bool {
    forall|i: int| 2 <= i < s.len() ==> !(#[trigger] s[i] == s[i - 1] && s[i - 1] == s[i - 2])
}

/// Collapsing keeps the last two ids of the input as the last two of the
/// result.
proof fn lemma_collapse_tail(s: Seq<u64>)
    ensures
        s.len() >= 1 ==> collapse(s).len() >= 1 && collapse(s).last() == s.last(),
        s.len() >= 2 ==> collapse(s).len() >= 2 && collapse(s)[collapse(s).len() - 2] == s[s.len()
            - 2],
        collapse(s).len() <= s.len(),
    decreases s.len(),
{
    if s.len() > 0 {
        lemma_collapse_tail(s.drop_last());
    }
}

/// A collapsed sequence never holds an id three or more times in a row.
pub proof fn lemma_collapse_no_triple(s: Seq<u64>)
    ensures
        no_triple(collapse(s)),
    decreases s.len(),
{
    if s.len() > 0 {
        let p = s.drop_last();
        lemma_collapse_no_triple(p);
        lemma_collapse_tail(p);
        let c = collapse(s);
        assert forall|i: int| 2 <= i < c.len() implies !(#[trigger] c[i] == c[i - 1] && c[i - 1]
            == c[i - 2]) by {
            if keep_at(s, s.len() - 1) && i == c.len() - 1 {
                assert(c[i] == s.last());
                assert(c[i - 1] == p.last());
                assert(c[i - 2] == p[p.len() - 2]);
            } else {
                assert(c[i] == collapse(p)[i]);
                assert(c[i - 1] == collapse(p)[i - 1]);
                assert(c[i - 2] == collapse(p)[i - 2]);
            }
        }
    }
}

/// Collapsing twice gives what collapsing once gives.
pub proof fn lemma_collapse_idempotent(s: Seq<u64>)
    ensures
        collapse(collapse(s)) == collapse(s),
{
    lemma_collapse_no_triple(s);
    lemma_collapse_fixes_no_triple(collapse(s));
}

/// A sequence with no triple is left as it is.
pub proof fn lemma_collapse_fixes_no_triple(s: Seq<u64>)
    requires
        no_triple(s),
    ensures
        collapse(s) == s,
    decreases s.len(),
{
    if s.len() > 0 {
        let p = s.drop_last();
        assert(no_triple(p)) by {
            assert forall|i: int| 2 <= i < p.len() implies !(#[trigger] p[i] == p[i - 1] && p[i
                - 1] == p[i - 2]) by {
                assert(s[i] == p[i]);
            }
        }
        lemma_collapse_fixes_no_triple(p);
        if s.len() >= 3 {
            assert(!(s[s.len() - 1] == s[s.len() - 2] && s[s.len() - 2] == s[s.len() - 3]));
        }
        assert(p.push(s.last()) =~= s);
    }
}

/// Collapsing keeps only ids of the input.
pub proof fn lemma_collapse_subset(s: Seq<u64>)
    ensures
        forall|j: int| 0 <= j < collapse(s).len() ==> s.contains(#[trigger] collapse(s)[j]),
    decreases s.len(),
{
    if s.len() > 0 {
        let p = s.drop_last();
        lemma_collapse_subset(p);
        assert forall|j: int| 0 <= j < collapse(s).len() implies s.contains(
            #[trigger] collapse(s)[j],
        ) by {
            if j < collapse(p).len() {
                let k = choose|k: int| 0 <= k < p.len() && p[k] == collapse(p)[j];
                assert(s[k] == collapse(s)[j]);
            } else {
                assert(s[s.len() - 1] == collapse(s)[j]);
            }
        }
    }
}

/// One round collapsed: the first two elements of every run of equal ids are
/// kept, the rest dropped.
pub fn collapse_round(item: &Vec<u64>) -> (r: Vec<u64>)
    ensures
        r@ == collapse(item@),
        no_triple(r@),
{
    let mut r: Vec<u64> = Vec::new();
    let mut i: usize = 0;
    while i < item.len()
        invariant
            i <= item@.len(),
            r@ == collapse(item@.subrange(0, i as int)),
        decreases item@.len() - i,
    {
        let ghost next = item@.subrange(0, i + 1);
        assert(next.drop_last() =~= item@.subrange(0, i as int));
        if !(i >= 2 && item[i] == item[i - 1] && item[i - 1] == item[i - 2]) {
            r.push(item[i]);
        }
        i = i + 1;
    }
    assert(item@.subrange(0, item@.len() as int) =~= item@);
    proof {
        lemma_collapse_no_triple(item@);
    }
    r
}

/// Every round collapsed on its own: runs do not cross round boundaries.
pub fn clean_all_log_sequence(all_log_sequence: Vec<Vec<u64>>) -> (r: Vec<Vec<u64>>)
    ensures
        r@.len() == all_log_sequence@.len(),
        forall|i: int|
            0 <= i < r@.len() ==> #[trigger] r@[i]@ == collapse(all_log_sequence@[i]@),
        forall|i: int| 0 <= i < r@.len() ==> no_triple(#[trigger] r@[i]@),
{
    let mut r: Vec<Vec<u64>> = Vec::new();
    let mut i: usize = 0;
    while i < all_log_sequence.len()
        invariant
            i <= all_log_sequence@.len(),
            r@.len() == i,
            forall|k: int| 0 <= k < i ==> #[trigger] r@[k]@ == collapse(all_log_sequence@[k]@),
            forall|k: int| 0 <= k < i ==> no_triple(#[trigger] r@[k]@),
        decreases all_log_sequence@.len() - i,
    {
        let c = collapse_round(&all_log_sequence[i]);
        r.push(c);
        i = i + 1;
    }
    r
}

/// The element at `i` is kept: its label is not the third (or later) of a
/// run of equal labels.
pub open spec fn label_keep_at(s: Seq<u64>, l: Seq<Seq<char>>, i: int) -> bool {
    !(i >= 2 && l[s[i] as int] == l[s[i - 1] as int] && l[s[i - 1] as int] == l[s[i - 2] as int])
}

/// `s` with every run of ids of equal label cut to its first two elements.
pub open spec fn collapse_by_label(s: Seq<u64>, l: Seq<Seq<char>>) -> Seq<u64>
    decreases s.len(),
{
    if s.len() == 0 {
        s
    } else if label_keep_at(s, l, s.len() - 1) {
        collapse_by_label(s.drop_last(), l).push(s.last())
    } else {
        collapse_by_label(s.drop_last(), l)
    }
}

/// No label occurs three or more times in a row among the ids of `s`.
pub open spec fn no_label_triple(s: Seq<u64>, l: Seq<Seq<char>>) -> bool {
    forall|i: int|
        2 <= i < s.len() ==> !(l[#[trigger] s[i] as int] == l[s[i - 1] as int] && l[s[i - 1] as int]
            == l[s[i - 2] as int])
}

proof fn lemma_collapse_by_label_tail(s: Seq<u64>, l: Seq<Seq<char>>)
    ensures
        s.len() >= 1 ==> collapse_by_label(s, l).len() >= 1 && l[collapse_by_label(s, l).last() as int]
            == l[s.last() as int],
        s.len() >= 2 ==> collapse_by_label(s, l).len() >= 2 && l[collapse_by_label(s, l)[collapse_by_label(
            s,
            l,
        ).len() - 2] as int] == l[s[s.len() - 2] as int],
        collapse_by_label(s, l).len() <= s.len(),
    decreases s.len(),
{
    if s.len() > 0 {
        lemma_collapse_by_label_tail(s.drop_last(), l);
    }
}

/// After collapsing by label no label occurs three or more times in a row,
/// and so no id does either.
pub proof fn lemma_collapse_by_label_bound(s: Seq<u64>, l: Seq<Seq<char>>)
    ensures
        no_label_triple(collapse_by_label(s, l), l),
        no_triple(collapse_by_label(s, l)),
    decreases s.len(),
{
    let c = collapse_by_label(s, l);
    if s.len() > 0 {
        let p = s.drop_last();
        lemma_collapse_by_label_bound(p, l);
        lemma_collapse_by_label_tail(p, l);
        assert forall|i: int| 2 <= i < c.len() implies !(l[#[trigger] c[i] as int] == l[c[i
            - 1] as int] && l[c[i - 1] as int] == l[c[i - 2] as int]) by {
            if label_keep_at(s, l, s.len() - 1) && i == c.len() - 1 {
                assert(c[i] == s.last());
                assert(c[i - 1] == collapse_by_label(p, l).last());
                assert(c[i - 2] == collapse_by_label(p, l)[collapse_by_label(p, l).len() - 2]);
                assert(p.last() == s[s.len() - 2]);
                assert(p[p.len() - 2] == s[s.len() - 3]);
                assert(l[c[i - 1] as int] == l[s[s.len() - 2] as int]);
                assert(l[c[i - 2] as int] == l[s[s.len() - 3] as int]);
            } else {
                assert(c[i] == collapse_by_label(p, l)[i]);
                assert(c[i - 1] == collapse_by_label(p, l)[i - 1]);
                assert(c[i - 2] == collapse_by_label(p, l)[i - 2]);
            }
        }
    }
    assert forall|i: int| 2 <= i < c.len() implies !(#[trigger] c[i] == c[i - 1] && c[i - 1] == c[i
        - 2]) by {
        if c[i] == c[i - 1] && c[i - 1] == c[i - 2] {
            assert(l[c[i] as int] == l[c[i - 1] as int]);
        }
    }
}

/// Collapsing by label keeps only ids of the input.
pub proof fn lemma_collapse_by_label_subset(s: Seq<u64>, l: Seq<Seq<char>>)
    ensures
        forall|j: int|
            0 <= j < collapse_by_label(s, l).len() ==> s.contains(#[trigger] collapse_by_label(s, l)[j]),
    decreases s.len(),
{
    if s.len() > 0 {
        let p = s.drop_last();
        lemma_collapse_by_label_subset(p, l);
        assert forall|j: int| 0 <= j < collapse_by_label(s, l).len() implies s.contains(
            #[trigger] collapse_by_label(s, l)[j],
        ) by {
            if j < collapse_by_label(p, l).len() {
                let k = choose|k: int| 0 <= k < p.len() && p[k] == collapse_by_label(p, l)[j];
                assert(s[k] == collapse_by_label(s, l)[j]);
            } else {
                assert(s[s.len() - 1] == collapse_by_label(s, l)[j]);
            }
        }
    }
}

/// Every round cut so that no label occurs three or more times in a row;
/// `labels` holds the label of each id.
pub fn collapse_label_runs(rounds: &Vec<Vec<u64>>, labels: &Vec<String>) -> (r: Vec<Vec<u64>>)
    requires
        forall|k: int, j: int|
            0 <= k < rounds@.len() && 0 <= j < rounds@[k]@.len() ==> (#[trigger] rounds@[k]@[j])
                < labels@.len(),
    ensures
        r@.len() == rounds@.len(),
        forall|k: int|
            0 <= k < r@.len() ==> #[trigger] r@[k]@ == collapse_by_label(
                rounds@[k]@,
                labels@.map_values(|s: String| s@),
            ),
{
    let ghost lv = labels@.map_values(|s: String| s@);
    let mut r: Vec<Vec<u64>> = Vec::new();
    let mut k: usize = 0;
    while k < rounds.len()
        invariant
            k <= rounds@.len(),
            r@.len() == k,
            lv == labels@.map_values(|s: String| s@),
            forall|a: int, j: int|
                0 <= a < rounds@.len() && 0 <= j < rounds@[a]@.len() ==> (#[trigger] rounds@[a]@[j])
                    < labels@.len(),
            forall|a: int| 0 <= a < k ==> #[trigger] r@[a]@ == collapse_by_label(rounds@[a]@, lv),
        decreases rounds@.len() - k,
    {
        let item = &rounds[k];
        let mut out: Vec<u64> = Vec::new();
        let mut i: usize = 0;
        let n = labels.len();
        while i < item.len()
            invariant
                i <= item@.len(),
                item@ == rounds@[k as int]@,
                k < rounds@.len(),
                n == labels@.len(),
                lv == labels@.map_values(|s: String| s@),
                forall|a: int, j: int|
                    0 <= a < rounds@.len() && 0 <= j < rounds@[a]@.len() ==> (
                    #[trigger] rounds@[a]@[j]) < labels@.len(),
                out@ == collapse_by_label(item@.subrange(0, i as int), lv),
            decreases item@.len() - i,
        {
            let ghost next = item@.subrange(0, i + 1);
            assert(next.drop_last() =~= item@.subrange(0, i as int));
            let mut keep = true;
            if i >= 2 {
                assert(rounds@[k as int]@[i as int] < n);
                assert(rounds@[k as int]@[i - 1] < n);
                assert(rounds@[k as int]@[i - 2] < n);
                let a = item[i] as usize;
                let b = item[i - 1] as usize;
                let c = item[i - 2] as usize;
                assert(lv[a as int] == labels@[a as int]@);
                assert(lv[b as int] == labels@[b as int]@);
                assert(lv[c as int] == labels@[c as int]@);
                if labels[a] == labels[b] && labels[b] == labels[c] {
                    keep = false;
                }
            }
            assert(keep == label_keep_at(next, lv, i as int));
            if keep {
                out.push(item[i]);
            }
            i = i + 1;
        }
        assert(item@.subrange(0, item@.len() as int) =~= item@);
        r.push(out);
        k = k + 1;
    }
    r
}

} // verus!
