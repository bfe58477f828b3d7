//! Properties of whole runs, proved over the model of the pipeline.
use vstd::prelude::*;

use crate::classify::parse_fields;
use crate::collapse::{collapse, collapse_by_label, lemma_collapse_by_label_bound, no_triple};
use crate::interner::{distinct_texts, intern_spec, InternerView};
use crate::output::{id_tokens, label_tokens, mapping_text, table_text};
use crate::pipeline::{
    batch_spec, is_sentinel, label_texts, run, run_to_end, step, EventView,
    PipelineView,
};
use crate::text::{decimal, lemma_decimal_injective};

verus! {

/// No token occurs three or more times in a row in `t`.
pub open spec fn no_triple_tokens(t: Seq<Seq<char>>) -> bool {
    forall|i: int| 2 <= i < t.len() ==> !(#[trigger] t[i] == t[i - 1] && t[i - 1] == t[i - 2])
}

/// The line opens a round.
pub open spec fn opens_round(line: Seq<char>) -> bool {
    parse_fields(line) matches Some(f) && is_sentinel(f.message)
}

/// A run is determined by its setup, its state and its input: two runs
/// from equal states on equal lines end equal and flush equal batches, byte
/// for byte.
pub proof fn lemma_run_deterministic(
    v1: PipelineView,
    v2: PipelineView,
    lines1: Seq<Seq<char>>,
    lines2: Seq<Seq<char>>,
)
    requires
        v1 == v2,
        lines1 == lines2,
    ensures
        run_to_end(v1, lines1) == run_to_end(v2, lines2),
{
}

/// Reading `a` and then `b` is reading `b` from where `a` left off; the
/// batches follow one another.
pub proof fn lemma_run_concat(v: PipelineView, a: Seq<Seq<char>>, b: Seq<Seq<char>>)
    ensures
        run(v, a + b) == (run(run(v, a).0, b).0, run(v, a).1 + run(run(v, a).0, b).1),
    decreases b.len(),
{
    if b.len() == 0 {
        assert(a + b =~= a);
        assert(run(v, a).1 + Seq::<crate::pipeline::BatchView>::empty() =~= run(v, a).1);
    } else {
        lemma_run_concat(v, a, b.drop_last());
        assert((a + b).drop_last() =~= a + b.drop_last());
        assert((a + b).last() == b.last());
        let w = run(v, a);
        let r = run(w.0, b.drop_last());
        let o = step(r.0, b.last()).1;
        if let Some(x) = o.batch {
            assert((w.1 + r.1).push(x) =~= w.1 + r.1.push(x));
        }
    }
}

/// `w` is `v` but for the unknown components already reported.
pub open spec fn same_but_reports(v: PipelineView, w: PipelineView) -> bool {
    w == PipelineView { unknown: w.unknown, ..v }
}

/// A line read before the first round, that does not open one, flushes
/// nothing and changes nothing but the list of reported components.
pub proof fn lemma_step_before_first_round(v: PipelineView, line: Seq<char>)
    requires
        !v.started,
        !opens_round(line),
    ensures
        same_but_reports(v, step(v, line).0),
        step(v, line).1.batch is None,
{
}

/// Lines before the first round-opening message are absent from every
/// round: they flush nothing, leave the rounds and the alphabet as they
/// were, and what follows them runs as from a state that differs only in
/// the components already reported.
pub proof fn lemma_round_boundary(v: PipelineView, pre: Seq<Seq<char>>, post: Seq<Seq<char>>)
    requires
        !v.started,
        forall|i: int| 0 <= i < pre.len() ==> !opens_round(#[trigger] pre[i]),
    ensures
        run(v, pre).1.len() == 0,
        same_but_reports(v, run(v, pre).0),
        run(v, pre + post) == run(run(v, pre).0, post),
{
    lemma_run_before_first_round(v, pre);
    lemma_run_concat(v, pre, post);
    let w = run(v, pre).0;
    assert(Seq::<crate::pipeline::BatchView>::empty() + run(w, post).1 =~= run(w, post).1);
}

proof fn lemma_run_before_first_round(v: PipelineView, pre: Seq<Seq<char>>)
    requires
        !v.started,
        forall|i: int| 0 <= i < pre.len() ==> !opens_round(#[trigger] pre[i]),
    ensures
        same_but_reports(v, run(v, pre).0),
        run(v, pre).1 == Seq::<crate::pipeline::BatchView>::empty(),
    decreases pre.len(),
{
    if pre.len() > 0 {
        let p = pre.drop_last();
        assert forall|i: int| 0 <= i < p.len() implies !opens_round(#[trigger] p[i]) by {
            assert(p[i] == pre[i]);
        }
        lemma_run_before_first_round(v, p);
        assert(!opens_round(pre[pre.len() - 1]));
        lemma_step_before_first_round(run(v, p).0, pre.last());
    }
}

proof fn lemma_intern_alphabet(a: InternerView, m: Seq<char>)
    requires
        distinct_texts(a.texts),
    ensures
        ({
            let (b, id) = intern_spec(a, m);
            &&& a.texts.len() <= b.texts.len() <= a.texts.len() + 1
            &&& b.texts.subrange(0, a.texts.len() as int) == a.texts
            &&& distinct_texts(b.texts)
            &&& id < b.texts.len()
            &&& b.texts[id as int] == m
            &&& (id >= a.texts.len() ==> id == a.texts.len())
        }),
{
    let (b, id) = intern_spec(a, m);
    if a.texts.contains(m) {
        assert(b.texts.subrange(0, a.texts.len() as int) =~= a.texts);
    } else {
        assert(b.texts.subrange(0, a.texts.len() as int) =~= a.texts);
        assert forall|i: int, j: int| 0 <= i < j < b.texts.len() implies b.texts[i]
            != b.texts[j] by {
            if j == a.texts.len() {
                assert(b.texts[i] == a.texts[i]);
            }
        }
    }
}

/// Ids are handed out in first-seen order and never change meaning: after
/// any line the earlier texts keep their ids, at most one text is added, at
/// the next id, and no text is listed twice.
pub proof fn lemma_step_alphabet(v: PipelineView, line: Seq<char>)
    requires
        distinct_texts(v.alphabet.texts),
    ensures
        ({
            let (w, o) = step(v, line);
            &&& v.alphabet.texts.len() <= w.alphabet.texts.len() <= v.alphabet.texts.len() + 1
            &&& w.alphabet.texts.subrange(0, v.alphabet.texts.len() as int) == v.alphabet.texts
            &&& distinct_texts(w.alphabet.texts)
            &&& (o.event matches EventView::Recorded(id) ==> id < w.alphabet.texts.len() && (id
                >= v.alphabet.texts.len() ==> id == v.alphabet.texts.len()))
        }),
{
    let (w, o) = step(v, line);
    if w.alphabet == v.alphabet {
        assert(v.alphabet.texts.subrange(0, v.alphabet.texts.len() as int) =~= v.alphabet.texts);
    }
    if let Some(f) = parse_fields(line) {
        let c = crate::sanitize::apply_rules(v.rules, f.message);
        lemma_intern_alphabet(v.alphabet, c);
    }
}

/// Over a whole run the alphabet only grows: the texts known at the start
/// keep their ids, and no text is listed twice.
pub proof fn lemma_run_alphabet(v: PipelineView, lines: Seq<Seq<char>>)
    requires
        distinct_texts(v.alphabet.texts),
    ensures
        run(v, lines).0.alphabet.texts.len() >= v.alphabet.texts.len(),
        run(v, lines).0.alphabet.texts.subrange(0, v.alphabet.texts.len() as int)
            == v.alphabet.texts,
        distinct_texts(run(v, lines).0.alphabet.texts),
    decreases lines.len(),
{
    if lines.len() == 0 {
        assert(v.alphabet.texts.subrange(0, v.alphabet.texts.len() as int) =~= v.alphabet.texts);
    } else {
        lemma_run_alphabet(v, lines.drop_last());
        let w = run(v, lines.drop_last()).0;
        lemma_step_alphabet(w, lines.last());
        let x = step(w, lines.last()).0;
        assert(x.alphabet.texts.subrange(0, v.alphabet.texts.len() as int) =~= w.alphabet.texts.subrange(
            0,
            w.alphabet.texts.len() as int,
        ).subrange(0, v.alphabet.texts.len() as int));
    }
}

/// `acc` extended by each text of `ms` that it does not hold yet, in the
/// order of `ms`.
pub open spec fn add_first_seen(acc: Seq<Seq<char>>, ms: Seq<Seq<char>>) -> Seq<Seq<char>>
    decreases ms.len(),
{
    if ms.len() == 0 {
        acc
    } else {
        let a = add_first_seen(acc, ms.drop_last());
        if a.contains(ms.last()) {
            a
        } else {
            a.push(ms.last())
        }
    }
}

/// The canonical text that reading `line` interns: none, or one.
pub open spec fn interned_text(v: PipelineView, line: Seq<char>) -> Seq<Seq<char>> {
    let (w, o) = step(v, line);
    match o.event {
        EventView::Recorded(id) => seq![w.alphabet.texts[id as int]],
        EventView::Unmapped(c) => seq![c],
        _ => Seq::empty(),
    }
}

/// The canonical texts that a run interns, line by line, repeats included.
pub open spec fn run_interned(v: PipelineView, lines: Seq<Seq<char>>) -> Seq<Seq<char>>
    decreases lines.len(),
{
    if lines.len() == 0 {
        Seq::empty()
    } else {
        run_interned(v, lines.drop_last()) + interned_text(run(v, lines.drop_last()).0, lines.last())
    }
}

proof fn lemma_add_first_seen_concat(acc: Seq<Seq<char>>, a: Seq<Seq<char>>, b: Seq<Seq<char>>)
    ensures
        add_first_seen(acc, a + b) == add_first_seen(add_first_seen(acc, a), b),
    decreases b.len(),
{
    if b.len() == 0 {
        assert(a + b =~= a);
    } else {
        lemma_add_first_seen_concat(acc, a, b.drop_last());
        assert((a + b).drop_last() =~= a + b.drop_last());
        assert((a + b).last() == b.last());
    }
}

proof fn lemma_add_first_seen_one(acc: Seq<Seq<char>>, c: Seq<char>)
    ensures
        add_first_seen(acc, Seq::empty()) == acc,
        add_first_seen(acc, seq![c]) == if acc.contains(c) {
            acc
        } else {
            acc.push(c)
        },
{
    assert(seq![c].drop_last() =~= Seq::<Seq<char>>::empty());
}

proof fn lemma_step_first_seen(v: PipelineView, line: Seq<char>)
    requires
        distinct_texts(v.alphabet.texts),
    ensures
        step(v, line).0.alphabet.texts == add_first_seen(v.alphabet.texts, interned_text(v, line)),
{
    let (w, o) = step(v, line);
    lemma_add_first_seen_one(v.alphabet.texts, Seq::empty());
    if let Some(f) = parse_fields(line) {
        let c = crate::sanitize::apply_rules(v.rules, f.message);
        lemma_intern_alphabet(v.alphabet, c);
        lemma_add_first_seen_one(v.alphabet.texts, c);
        if let EventView::Recorded(id) = o.event {
            assert(seq![w.alphabet.texts[id as int]] == seq![c]);
        }
    }
}

/// Over a whole run the alphabet is the alphabet before it extended by
/// every canonical text that the run interned, at its first sighting, in
/// that order: ids are handed out as 0, 1, 2, ... in first-seen order, and
/// no text gets two.
pub proof fn lemma_run_first_seen(v: PipelineView, lines: Seq<Seq<char>>)
    requires
        distinct_texts(v.alphabet.texts),
    ensures
        run(v, lines).0.alphabet.texts == add_first_seen(v.alphabet.texts, run_interned(v, lines)),
    decreases lines.len(),
{
    if lines.len() == 0 {
        lemma_add_first_seen_one(v.alphabet.texts, Seq::empty());
    } else {
        let p = lines.drop_last();
        lemma_run_first_seen(v, p);
        lemma_run_alphabet(v, p);
        let w = run(v, p).0;
        lemma_step_first_seen(w, lines.last());
        lemma_add_first_seen_concat(
            v.alphabet.texts,
            run_interned(v, p),
            interned_text(w, lines.last()),
        );
    }
}

/// A batch flushed while reading line `i` has a mapping file that lists,
/// by id, the canonical texts interned before that line, each at its first
/// sighting.
pub proof fn lemma_batch_mapping_first_seen(v: PipelineView, lines: Seq<Seq<char>>, i: int)
    requires
        distinct_texts(v.alphabet.texts),
        0 <= i < lines.len(),
        step(run(v, lines.subrange(0, i)).0, lines[i]).1.batch is Some,
    ensures
        step(run(v, lines.subrange(0, i)).0, lines[i]).1.batch->Some_0.mapping == mapping_text(
            add_first_seen(v.alphabet.texts, run_interned(v, lines.subrange(0, i))),
        ),
{
    lemma_run_first_seen(v, lines.subrange(0, i));
}

/// The mapping of the first `k` ids begins the mapping of all of them: a
/// later batch's mapping file extends an earlier one's, line for line.
pub proof fn lemma_mapping_prefix(t: Seq<Seq<char>>, k: int)
    requires
        0 <= k <= t.len(),
    ensures
        mapping_text(t.subrange(0, k)).len() <= mapping_text(t).len(),
        mapping_text(t).subrange(0, mapping_text(t.subrange(0, k)).len() as int) == mapping_text(
            t.subrange(0, k),
        ),
    decreases t.len(),
{
    if k == t.len() {
        assert(t.subrange(0, k) =~= t);
        assert(mapping_text(t).subrange(0, mapping_text(t).len() as int) =~= mapping_text(t));
    } else {
        let p = t.drop_last();
        lemma_mapping_prefix(p, k);
        assert(p.subrange(0, k) =~= t.subrange(0, k));
        let m = mapping_text(t.subrange(0, k));
        let tail = decimal((t.len() - 1) as nat) + seq![' '] + t.last() + seq!['\n'];
        assert(mapping_text(t) =~= mapping_text(p) + tail);
        assert(mapping_text(t).subrange(0, m.len() as int) =~= mapping_text(p).subrange(
            0,
            m.len() as int,
        ));
    }
}

proof fn lemma_tokens_no_triple(r: Seq<u64>, t: Seq<Seq<char>>)
    requires
        no_triple(r),
        t.len() == r.len(),
        forall|i: int, j: int| 0 <= i < r.len() && 0 <= j < r.len() && t[i] == t[j] ==> r[i] == r[j],
    ensures
        no_triple_tokens(t),
{
    assert forall|i: int| 2 <= i < t.len() implies !(#[trigger] t[i] == t[i - 1] && t[i - 1] == t[i
        - 2]) by {
        if t[i] == t[i - 1] && t[i - 1] == t[i - 2] {
            assert(r[i] == r[i - 1]);
            assert(r[i - 1] == r[i - 2]);
        }
    }
}

/// In every round of a batch no id occurs three or more times in a row,
/// and no token does, in the numeric trace or in the labeled one.
pub proof fn lemma_batch_collapse_bound(v: PipelineView)
    ensures
        forall|k: int|
            0 <= k < batch_spec(v).rounds.len() ==> {
                &&& no_triple(#[trigger] batch_spec(v).rounds[k])
                &&& no_triple_tokens(id_tokens(batch_spec(v).rounds[k]))
                &&& no_triple_tokens(label_tokens(batch_spec(v).rounds[k], label_texts(v)))
            },
{
    let b = batch_spec(v);
    let l = label_texts(v);
    assert forall|k: int| 0 <= k < b.rounds.len() implies {
        &&& no_triple(#[trigger] b.rounds[k])
        &&& no_triple_tokens(id_tokens(b.rounds[k]))
        &&& no_triple_tokens(label_tokens(b.rounds[k], l))
    } by {
        let r = b.rounds[k];
        assert(r == collapse_by_label(collapse(v.sequences[k]), l));
        lemma_collapse_by_label_bound(collapse(v.sequences[k]), l);
        let t = id_tokens(r);
        assert forall|i: int, j: int|
            0 <= i < r.len() && 0 <= j < r.len() && t[i] == t[j] implies r[i] == r[j] by {
            lemma_decimal_injective(r[i] as nat, r[j] as nat);
        }
        lemma_tokens_no_triple(r, t);
        let u = label_tokens(r, l);
        assert forall|i: int| 2 <= i < u.len() implies !(#[trigger] u[i] == u[i - 1] && u[i - 1]
            == u[i - 2]) by {
            assert(u[i] == l[r[i] as int]);
            assert(u[i - 1] == l[r[i - 1] as int]);
            assert(u[i - 2] == l[r[i - 2] as int]);
        }
    }
}

/// The numeric and the labeled trace of a batch share their header and,
/// round for round, their number of tokens.
pub proof fn lemma_alignment(v: PipelineView)
    ensures
        ({
            let b = batch_spec(v);
            let p = b.rounds.map_values(|r: Seq<u64>| id_tokens(r));
            let l = b.rounds.map_values(|r: Seq<u64>| label_tokens(r, label_texts(v)));
            &&& b.parsed == table_text(p, v.alphabet.texts.len())
            &&& b.labeled == table_text(l, v.alphabet.texts.len())
            &&& p.len() == l.len() == b.rounds.len() == v.sequences.len()
            &&& forall|k: int|
                0 <= k < p.len() ==> #[trigger] p[k].len() == l[k].len() && p[k].len()
                    == b.rounds[k].len()
        }),
{
}

} // verus!
