//! The text of the three batch files: the numeric trace, the labeled trace,
//! and the id-to-message mapping.
use vstd::prelude::*;

use crate::text::{decimal, decimal3, push_decimal};

verus! {

/// Each token preceded by one space.
pub open spec fn join_tokens(toks: Seq<Seq<char>>) -> Seq<char>
    decreases toks.len(),
{
    if toks.len() == 0 {
        Seq::empty()
    } else {
        join_tokens(toks.drop_last()) + seq![' '] + toks.last()
    }
}

/// One trace line: `1 <count>` and the tokens, then a line break.
pub open spec fn row_text(toks: Seq<Seq<char>>) -> Seq<char> {
    seq!['1', ' '] + decimal(toks.len()) + join_tokens(toks) + seq!['\n']
}

/// The trace lines, one per round.
pub open spec fn rows_text(rows: Seq<Seq<Seq<char>>>) -> Seq<char>
    decreases rows.len(),
{
    if rows.len() == 0 {
        Seq::empty()
    } else {
        rows_text(rows.drop_last()) + row_text(rows.last())
    }
}

/// A trace file: the header `<rounds> <alphabet size>`, then one line per
/// round.
pub open spec fn table_text(rows: Seq<Seq<Seq<char>>>, alphabet_size: nat) -> Seq<char> {
    decimal(rows.len()) + seq![' '] + decimal(alphabet_size) + seq!['\n'] + rows_text(rows)
}

/// The mapping file: `<id> <text>` for every id, in id order.
pub open spec fn mapping_text(texts: Seq<Seq<char>>) -> Seq<char>
    decreases texts.len(),
{
    if texts.len() == 0 {
        Seq::empty()
    } else {
        mapping_text(texts.drop_last()) + decimal((texts.len() - 1) as nat) + seq![' ']
            + texts.last() + seq!['\n']
    }
}

/// The tokens of a round in the numeric trace: its ids in decimal.
pub open spec fn id_tokens(round: Seq<u64>) -> Seq<Seq<char>> {
    round.map_values(|id: u64| decimal(id as nat))
}

/// The tokens of a round in the labeled trace: the label of each id.
pub open spec fn label_tokens(round: Seq<u64>, labels: Seq<Seq<char>>) -> Seq<Seq<char>> {
    round.map_values(|id: u64| labels[id as int])
}

/// The suffix of a batch's file names: `_rounds_<first>_<last>`, each
/// number padded to three digits.
pub open spec fn batch_suffix(first: nat, last: nat) -> Seq<char> {
    seq!['_', 'r', 'o', 'u', 'n', 'd', 's', '_'] + decimal3(first) + seq!['_'] + decimal3(last)
}

/// Token rows as text.
pub open spec fn rows_view(rows: Seq<Vec<String>>) -> Seq<Seq<Seq<char>>> {
    rows.map_values(|r: Vec<String>| r@.map_values(|s: String| s@))
}

fn push_space(out: &mut String)
    ensures
        final(out)@ == old(out)@ + seq![' '],
{
    proof {
        reveal_strlit(" ");
    }
    out.append(" ");
    assert(final(out)@ =~= old(out)@ + seq![' ']);
}

fn push_newline(out: &mut String)
    ensures
        final(out)@ == old(out)@ + seq!['\n'],
{
    proof {
        reveal_strlit("\n");
    }
    out.append("\n");
    assert(final(out)@ =~= old(out)@ + seq!['\n']);
}

fn push_underscore(out: &mut String)
    ensures
        final(out)@ == old(out)@ + seq!['_'],
{
    proof {
        reveal_strlit("_");
    }
    out.append("_");
    assert(final(out)@ =~= old(out)@ + seq!['_']);
}

fn push_row(out: &mut String, toks: &Vec<String>)
    ensures
        final(out)@ == old(out)@ + row_text(toks@.map_values(|s: String| s@)),
{
    let ghost tv = toks@.map_values(|s: String| s@);
    proof {
        reveal_strlit("1 ");
    }
    out.append("1 ");
    push_decimal(out, toks.len() as u64);
    let ghost base = out@;
    let mut i: usize = 0;
    while i < toks.len()
        invariant
            i <= toks@.len(),
            tv == toks@.map_values(|s: String| s@),
            out@ == base + join_tokens(tv.subrange(0, i as int)),
        decreases toks@.len() - i,
    {
        push_space(out);
        out.append(toks[i].as_str());
        proof {
            let next = tv.subrange(0, i + 1);
            assert(next.drop_last() =~= tv.subrange(0, i as int));
            assert(next.last() == toks@[i as int]@);
        }
        assert(out@ =~= base + join_tokens(tv.subrange(0, i + 1)));
        i = i + 1;
    }
    assert(tv.subrange(0, tv.len() as int) =~= tv);
    push_newline(out);
    assert(seq!['1', ' '] =~= "1 "@);
    assert(final(out)@ =~= old(out)@ + row_text(tv));
}

/// A trace file from its token rows.
pub fn render_table(rows: &Vec<Vec<String>>, alphabet_size: usize) -> (r: String)
    ensures
        r@ == table_text(rows_view(rows@), alphabet_size as nat),
{
    let ghost rv = rows_view(rows@);
    let mut out = String::new();
    push_decimal(&mut out, rows.len() as u64);
    push_space(&mut out);
    push_decimal(&mut out, alphabet_size as u64);
    push_newline(&mut out);
    let ghost base = out@;
    let mut i: usize = 0;
    assert(rv.subrange(0, 0) =~= Seq::<Seq<Seq<char>>>::empty());
    while i < rows.len()
        invariant
            i <= rows@.len(),
            rv == rows_view(rows@),
            out@ == base + rows_text(rv.subrange(0, i as int)),
        decreases rows@.len() - i,
    {
        push_row(&mut out, &rows[i]);
        proof {
            let next = rv.subrange(0, i + 1);
            assert(next.drop_last() =~= rv.subrange(0, i as int));
        }
        assert(out@ =~= base + rows_text(rv.subrange(0, i + 1)));
        i = i + 1;
    }
    assert(rv.subrange(0, rv.len() as int) =~= rv);
    assert(out@ =~= table_text(rv, alphabet_size as nat));
    out
}

/// The mapping file for the texts of ids `0..texts.len()`.
pub fn render_mapping(texts: &Vec<String>) -> (r: String)
    ensures
        r@ == mapping_text(texts@.map_values(|s: String| s@)),
{
    let ghost tv = texts@.map_values(|s: String| s@);
    let mut out = String::new();
    let mut i: usize = 0;
    assert(tv.subrange(0, 0) =~= Seq::<Seq<char>>::empty());
    while i < texts.len()
        invariant
            i <= texts@.len(),
            tv == texts@.map_values(|s: String| s@),
            out@ == mapping_text(tv.subrange(0, i as int)),
        decreases texts@.len() - i,
    {
        push_decimal(&mut out, i as u64);
        push_space(&mut out);
        out.append(texts[i].as_str());
        push_newline(&mut out);
        proof {
            let next = tv.subrange(0, i + 1);
            assert(next.drop_last() =~= tv.subrange(0, i as int));
        }
        assert(out@ =~= mapping_text(tv.subrange(0, i + 1)));
        i = i + 1;
    }
    assert(tv.subrange(0, tv.len() as int) =~= tv);
    out
}

/// The numeric tokens of every round.
pub fn id_rows(rounds: &Vec<Vec<u64>>) -> (r: Vec<Vec<String>>)
    ensures
        rows_view(r@) == rounds@.map_values(|x: Vec<u64>| id_tokens(x@)),
{
    let mut r: Vec<Vec<String>> = Vec::new();
    let mut i: usize = 0;
    while i < rounds.len()
        invariant
            i <= rounds@.len(),
            r@.len() == i,
            forall|k: int|
                0 <= k < i ==> (#[trigger] r@[k])@.map_values(|s: String| s@) == id_tokens(
                    rounds@[k]@,
                ),
        decreases rounds@.len() - i,
    {
        let round = &rounds[i];
        let mut row: Vec<String> = Vec::new();
        let mut j: usize = 0;
        while j < round.len()
            invariant
                j <= round@.len(),
                row@.len() == j,
                forall|k: int|
                    0 <= k < j ==> (#[trigger] row@[k])@ == decimal(round@[k] as nat),
            decreases round@.len() - j,
        {
            let mut s = String::new();
            push_decimal(&mut s, round[j]);
            row.push(s);
            j = j + 1;
        }
        assert(row@.map_values(|s: String| s@) =~= id_tokens(round@));
        r.push(row);
        i = i + 1;
    }
    assert(rows_view(r@) =~= rounds@.map_values(|x: Vec<u64>| id_tokens(x@)));
    r
}

/// The label tokens of every round; `labels` holds the label of each id.
pub fn label_rows(rounds: &Vec<Vec<u64>>, labels: &Vec<String>) -> (r: Vec<Vec<String>>)
    requires
        forall|k: int, j: int|
            0 <= k < rounds@.len() && 0 <= j < rounds@[k]@.len() ==> (#[trigger] rounds@[k]@[j])
                < labels@.len(),
    ensures
        rows_view(r@) == rounds@.map_values(
            |x: Vec<u64>| label_tokens(x@, labels@.map_values(|s: String| s@)),
        ),
{
    let ghost lv = labels@.map_values(|s: String| s@);
    let mut r: Vec<Vec<String>> = Vec::new();
    let mut i: usize = 0;
    while i < rounds.len()
        invariant
            i <= rounds@.len(),
            r@.len() == i,
            lv == labels@.map_values(|s: String| s@),
            forall|k: int, j: int|
                0 <= k < rounds@.len() && 0 <= j < rounds@[k]@.len() ==> (#[trigger] rounds@[k]@[j])
                    < labels@.len(),
            forall|k: int|
                0 <= k < i ==> (#[trigger] r@[k])@.map_values(|s: String| s@) == label_tokens(
                    rounds@[k]@,
                    lv,
                ),
        decreases rounds@.len() - i,
    {
        let round = &rounds[i];
        let mut row: Vec<String> = Vec::new();
        let mut j: usize = 0;
        while j < round.len()
            invariant
                j <= round@.len(),
                round@ == rounds@[i as int]@,
                i < rounds@.len(),
                row@.len() == j,
                lv == labels@.map_values(|s: String| s@),
                forall|k: int, j: int|
                    0 <= k < rounds@.len() && 0 <= j < rounds@[k]@.len() ==> (#[trigger] rounds@[k]@[j])
                        < labels@.len(),
                forall|k: int| 0 <= k < j ==> (#[trigger] row@[k])@ == lv[round@[k] as int],
            decreases round@.len() - j,
        {
            let id = round[j];
            assert(rounds@[i as int]@[j as int] < labels@.len());
            let n = labels.len();
            assert(id < n);
            let idx = id as usize;
            let l = labels[idx].clone();
            assert(idx as int == id as int);
            assert(lv[idx as int] == labels@[idx as int]@);
            assert(l@ == lv[id as int]);
            row.push(l);
            j = j + 1;
        }
        assert(row@.map_values(|s: String| s@) =~= label_tokens(round@, lv));
        r.push(row);
        i = i + 1;
    }
    assert(rows_view(r@) =~= rounds@.map_values(|x: Vec<u64>| label_tokens(x@, lv)));
    r
}

/// The suffix of a batch's file names.
pub fn render_suffix(first: u64, last: u64) -> (r: String)
    ensures
        r@ == batch_suffix(first as nat, last as nat),
{
    let mut out = String::new();
    proof {
        reveal_strlit("_rounds_");
    }
    out.append("_rounds_");
    push_decimal3(&mut out, first);
    push_underscore(&mut out);
    push_decimal3(&mut out, last);
    assert(out@ =~= batch_suffix(first as nat, last as nat));
    out
}

fn push_decimal3(out: &mut String, n: u64)
    ensures
        final(out)@ == old(out)@ + decimal3(n as nat),
{
    proof {
        reveal_strlit("00");
        reveal_strlit("0");
    }
    if n < 10 {
        out.append("00");
    } else if n < 100 {
        out.append("0");
    }
    push_decimal(out, n);
    assert(final(out)@ =~= old(out)@ + decimal3(n as nat));
}

} // verus!
