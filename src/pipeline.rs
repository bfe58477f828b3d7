//! The running state of a trace extraction: round segmentation, the
//! per-line decisions, and the batches that are flushed every so many rounds.
use vstd::prelude::*;

use crate::classify::{match_line, parse_fields, parse_line, verdict_of, filter_view, Verdict};
use crate::collapse::{
    clean_all_log_sequence, collapse, collapse_by_label, collapse_label_runs,
    lemma_collapse_by_label_subset, lemma_collapse_subset,
};
use crate::interner::{distinct_texts, intern_spec, EventInterner, InternerView};
use crate::labels::{label_of, label_view, LabelTable};
use crate::output::{
    batch_suffix, id_rows, id_tokens, label_rows, label_tokens, mapping_text, render_mapping,
    render_suffix, render_table, rows_view, table_text,
};
use crate::sanitize::{apply_rules, sanitize_message, InvalidRule, RuleSet};
use crate::text::{chars_of, has_prefix, starts_with};

verus! {

/// The prefix of the message that opens a consensus round.
pub const SENTINEL: &'static str = "LedgerConsensus:NFO Entering consensus process";

/// The message opens a new round.
pub open spec fn is_sentinel(m: Seq<char>) -> bool {
    has_prefix(m, SENTINEL@)
}

/// How a run is set up.
pub struct Config {
    /// Rounds per batch; a batch is flushed when this many have been read.
    pub rounds_per_batch: u64,
    /// The run stops at the first round opened after this many rounds.
    pub round_cap: Option<u64>,
    /// When given, only lines of this level are kept.
    pub level_filter: Option<String>,
}

/// The model of a pipeline: its setup and its running state.
pub struct PipelineView {
    pub rounds_per_batch: nat,
    pub round_cap: Option<nat>,
    pub level_filter: Option<Seq<char>>,
    pub rules: Seq<(Seq<char>, Seq<char>)>,
    pub labels: Seq<(Seq<char>, Seq<char>)>,
    pub halted: bool,
    pub started: bool,
    pub rounds: nat,
    pub batch_start: nat,
    pub alphabet: InternerView,
    pub sequences: Seq<Seq<u64>>,
    /// The unknown components reported so far.
    pub unknown: Seq<Seq<char>>,
}

/// The label of each id, `None` for an id that the table does not name.
pub open spec fn id_labels(v: PipelineView) -> Seq<Option<Seq<char>>> {
    v.alphabet.texts.map_values(|t: Seq<char>| label_of(v.labels, t))
}

/// The label text of each id; the empty text for one that has no label.
pub open spec fn label_texts(v: PipelineView) -> Seq<Seq<char>> {
    id_labels(v).map_values(|l: Option<Seq<char>>| label_or_empty(l))
}

/// A label, or the empty text.
pub open spec fn label_or_empty(l: Option<Seq<char>>) -> Seq<char> {
    match l {
        Some(t) => t,
        None => Seq::empty(),
    }
}

/// A flushed batch: the rounds it covers, the collapsed rounds, and the
/// text of its three files.
pub struct BatchView {
    pub first_round: nat,
    pub last_round: nat,
    pub rounds: Seq<Seq<u64>>,
    pub parsed: Seq<char>,
    pub labeled: Seq<char>,
    pub mapping: Seq<char>,
    pub suffix: Seq<char>,
}

/// The rounds of the current batch, each collapsed: runs of one id are cut
/// to two, then runs of one label are cut to two, so that neither trace
/// shows a token three times in a row.
pub open spec fn collapsed_rounds(v: PipelineView) -> Seq<Seq<u64>> {
    v.sequences.map_values(|s: Seq<u64>| collapse_by_label(collapse(s), label_texts(v)))
}

/// The batch that `v` flushes.
pub open spec fn batch_spec(v: PipelineView) -> BatchView {
    let rounds = collapsed_rounds(v);
    BatchView {
        first_round: v.batch_start,
        last_round: (v.rounds - 1) as nat,
        rounds,
        parsed: table_text(rounds.map_values(|r: Seq<u64>| id_tokens(r)), v.alphabet.texts.len()),
        labeled: table_text(
            rounds.map_values(|r: Seq<u64>| label_tokens(r, label_texts(v))),
            v.alphabet.texts.len(),
        ),
        mapping: mapping_text(v.alphabet.texts),
        suffix: batch_suffix(v.batch_start, (v.rounds - 1) as nat),
    }
}

/// The state after a flush: no rounds held, the alphabet kept.
pub open spec fn flush_spec(v: PipelineView) -> PipelineView {
    PipelineView { sequences: Seq::empty(), batch_start: v.rounds, ..v }
}

/// What became of one line.
pub enum EventView {
    NoMatch,
    Halted,
    Dropped,
    UnknownComponent(Seq<char>),
    BeforeFirstRound,
    Unmapped(Seq<char>),
    Recorded(nat),
}

/// The outcome of one line: a batch flushed before it, if any, and what
/// became of it.
pub struct OutcomeView {
    pub batch: Option<BatchView>,
    pub event: EventView,
}

/// A sentinel at this state flushes the batch first.
pub open spec fn flushes_at(v: PipelineView) -> bool {
    v.rounds > 0 && v.rounds % v.rounds_per_batch == 0
}

/// A sentinel at this state stops the run: the round cap is reached, or no
/// further round can be counted.
pub open spec fn stops_at(v: PipelineView) -> bool {
    (v.round_cap matches Some(c) && v.rounds >= c) || v.rounds >= u64::MAX
}

/// The state once a new round is opened.
pub open spec fn open_round(v: PipelineView) -> PipelineView {
    PipelineView {
        sequences: v.sequences.push(Seq::empty()),
        started: true,
        rounds: v.rounds + 1,
        ..v
    }
}

/// A kept line with message `m`, in a started round: its canonical text is
/// interned, and its id is recorded when the text has a label.
pub open spec fn record(v: PipelineView, m: Seq<char>) -> (PipelineView, EventView) {
    let c = apply_rules(v.rules, m);
    let (a, id) = intern_spec(v.alphabet, c);
    let v1 = PipelineView { alphabet: a, ..v };
    match label_of(v.labels, c) {
        None => (v1, EventView::Unmapped(c)),
        Some(_) => {
            let last = v.sequences.len() - 1;
            (
                PipelineView {
                    sequences: v.sequences.update(last, v.sequences[last].push(id as u64)),
                    ..v1
                },
                EventView::Recorded(id),
            )
        },
    }
}

/// One line read: the new state and the outcome. A line is first
/// classified; only a kept line can open a round.
pub open spec fn step(v: PipelineView, line: Seq<char>) -> (PipelineView, OutcomeView) {
    if v.halted {
        (v, OutcomeView { batch: None, event: EventView::Halted })
    } else {
        match parse_fields(line) {
            None => (v, OutcomeView { batch: None, event: EventView::NoMatch }),
            Some(f) => match verdict_of(f.component, f.level, v.level_filter) {
                Verdict::Unknown => if v.unknown.contains(f.component) {
                    (v, OutcomeView { batch: None, event: EventView::Dropped })
                } else {
                    (
                        PipelineView { unknown: v.unknown.push(f.component), ..v },
                        OutcomeView {
                            batch: None,
                            event: EventView::UnknownComponent(f.component),
                        },
                    )
                },
                Verdict::Drop => (v, OutcomeView { batch: None, event: EventView::Dropped }),
                Verdict::Keep => {
                    let sentinel = is_sentinel(f.message);
                    let flush = sentinel && flushes_at(v);
                    let batch = if flush {
                        Some(batch_spec(v))
                    } else {
                        None
                    };
                    let v1 = if flush {
                        flush_spec(v)
                    } else {
                        v
                    };
                    if sentinel && stops_at(v) {
                        (
                            PipelineView { halted: true, ..v1 },
                            OutcomeView { batch, event: EventView::Halted },
                        )
                    } else {
                        let v2 = if sentinel {
                            open_round(v1)
                        } else {
                            v1
                        };
                        if !v2.started {
                            (v2, OutcomeView { batch, event: EventView::BeforeFirstRound })
                        } else {
                            let (v3, e) = record(v2, f.message);
                            (v3, OutcomeView { batch, event: e })
                        }
                    }
                },
            },
        }
    }
}

/// The end of the input: the rounds still held are flushed as a last
/// batch, and the run stops.
pub open spec fn finish_spec(v: PipelineView) -> (PipelineView, Option<BatchView>) {
    if v.sequences.len() > 0 {
        (PipelineView { halted: true, ..flush_spec(v) }, Some(batch_spec(v)))
    } else {
        (PipelineView { halted: true, ..v }, None)
    }
}

/// The state after `lines`, and the batches flushed on the way, in order.
pub open spec fn run(v: PipelineView, lines: Seq<Seq<char>>) -> (PipelineView, Seq<BatchView>)
    decreases lines.len(),
{
    if lines.len() == 0 {
        (v, Seq::empty())
    } else {
        let (w, bs) = run(v, lines.drop_last());
        let (x, o) = step(w, lines.last());
        (
            x,
            match o.batch {
                Some(b) => bs.push(b),
                None => bs,
            },
        )
    }
}

/// The state and every batch of a whole input: its lines, then its end.
pub open spec fn run_to_end(v: PipelineView, lines: Seq<Seq<char>>) -> (
    PipelineView,
    Seq<BatchView>,
) {
    let (w, bs) = run(v, lines);
    let (x, last) = finish_spec(w);
    (
        x,
        match last {
            Some(b) => bs.push(b),
            None => bs,
        },
    )
}

/// What became of one line.
pub enum LineEvent {
    /// The line does not have the header shape.
    NoMatch,
    /// The run has stopped; the line was not read.
    Halted,
    /// The component table or the level filter drops the line, or its
    /// unknown component was reported before.
    Dropped,
    /// The component is not in the table and was not reported before; the
    /// line is dropped. Later lines of the component are plainly dropped.
    UnknownComponent(String),
    /// The line is kept but no round has begun yet.
    BeforeFirstRound,
    /// The canonical message has no label; it is interned but not recorded.
    Unmapped(String),
    /// The event id was appended to the current round.
    Recorded(u64),
}

impl View for LineEvent {
    type V = EventView;

    open spec fn view(&self) -> EventView {
        match self {
            LineEvent::NoMatch => EventView::NoMatch,
            LineEvent::Halted => EventView::Halted,
            LineEvent::Dropped => EventView::Dropped,
            LineEvent::UnknownComponent(c) => EventView::UnknownComponent(c@),
            LineEvent::BeforeFirstRound => EventView::BeforeFirstRound,
            LineEvent::Unmapped(m) => EventView::Unmapped(m@),
            LineEvent::Recorded(id) => EventView::Recorded(*id as nat),
        }
    }
}

/// A flushed batch of rounds and the text of its three files.
pub struct Batch {
    /// Index of the first round covered, counted from 0.
    pub first_round: u64,
    /// Index of the last round covered.
    pub last_round: u64,
    /// The collapsed id sequence of each round.
    pub rounds: Vec<Vec<u64>>,
    /// The numeric trace.
    pub parsed: String,
    /// The labeled trace.
    pub labeled: String,
    /// The id-to-message mapping.
    pub mapping: String,
    /// The suffix of the batch's file names.
    pub suffix: String,
}

impl View for Batch {
    type V = BatchView;

    open spec fn view(&self) -> BatchView {
        BatchView {
            first_round: self.first_round as nat,
            last_round: self.last_round as nat,
            rounds: self.rounds@.map_values(|r: Vec<u64>| r@),
            parsed: self.parsed@,
            labeled: self.labeled@,
            mapping: self.mapping@,
            suffix: self.suffix@,
        }
    }
}

/// An optional batch as a model.
pub open spec fn batch_view(b: Option<Batch>) -> Option<BatchView> {
    match b {
        Some(x) => Some(x@),
        None => None,
    }
}

/// The outcome of one line.
pub struct LineOutcome {
    /// The batch flushed before the line was processed, if any.
    pub batch: Option<Batch>,
    /// What became of the line.
    pub event: LineEvent,
}

impl View for LineOutcome {
    type V = OutcomeView;

    open spec fn view(&self) -> OutcomeView {
        OutcomeView { batch: batch_view(self.batch), event: self.event@ }
    }
}

/// The running state of one extraction.
pub struct Pipeline {
    rounds_per_batch: u64,
    round_cap: Option<u64>,
    level_filter: Option<String>,
    rules: RuleSet,
    labels: LabelTable,
    halted: bool,
    started: bool,
    rounds: u64,
    batch_start: u64,
    interner: EventInterner,
    event_labels: Vec<Option<String>>,
    sequences: Vec<Vec<u64>>,
    unknown: Vec<String>,
}

/// An optional count as a model.
pub open spec fn cap_view(c: Option<u64>) -> Option<nat> {
    match c {
        Some(n) => Some(n as nat),
        None => None,
    }
}

impl View for Pipeline {
    type V = PipelineView;

    closed spec fn view(&self) -> PipelineView {
        PipelineView {
            rounds_per_batch: self.rounds_per_batch as nat,
            round_cap: cap_view(self.round_cap),
            level_filter: filter_view(&self.level_filter),
            rules: self.rules@,
            labels: self.labels@,
            halted: self.halted,
            started: self.started,
            rounds: self.rounds as nat,
            batch_start: self.batch_start as nat,
            alphabet: self.interner@,
            sequences: self.sequences@.map_values(|s: Vec<u64>| s@),
            unknown: self.unknown@.map_values(|s: String| s@),
        }
    }
}

/// The state of a run that has read nothing: no round, no id, no report.
pub open spec fn initial_view(
    config: &Config,
    rules: Seq<(Seq<char>, Seq<char>)>,
    labels: Seq<(Seq<char>, Seq<char>)>,
) -> PipelineView {
    PipelineView {
        rounds_per_batch: config.rounds_per_batch as nat,
        round_cap: cap_view(config.round_cap),
        level_filter: filter_view(&config.level_filter),
        rules,
        labels,
        halted: false,
        started: false,
        rounds: 0,
        batch_start: 0,
        alphabet: InternerView { texts: Seq::empty(), counts: Seq::empty() },
        sequences: Seq::empty(),
        unknown: Seq::empty(),
    }
}

/// Every recorded id is known and has a label.
pub open spec fn ids_labeled(v: PipelineView) -> bool {
    forall|k: int, j: int|
        0 <= k < v.sequences.len() && 0 <= j < v.sequences[k].len() ==> {
            let id = #[trigger] v.sequences[k][j];
            &&& id < v.alphabet.texts.len()
            &&& id_labels(v)[id as int] is Some
        }
}

/// The consistency of a model that every state of a run keeps.
pub open spec fn model_wf(v: PipelineView) -> bool {
    &&& v.rounds_per_batch > 0
    &&& v.alphabet.texts.len() == v.alphabet.counts.len()
    &&& distinct_texts(v.alphabet.texts)
    &&& ids_labeled(v)
    &&& v.batch_start <= v.rounds <= u64::MAX
    &&& v.sequences.len() == v.rounds - v.batch_start
    &&& v.started == (v.rounds > 0)
    &&& (v.started && !v.halted) ==> v.batch_start < v.rounds
}

impl Pipeline {
    closed spec fn wf_core(&self) -> bool {
        &&& self.rounds_per_batch > 0
        &&& self.interner.wf()
        &&& self.event_labels@.len() == self.interner@.texts.len()
        &&& forall|i: int|
            0 <= i < self.event_labels@.len() ==> label_view(#[trigger] self.event_labels@[i])
                == id_labels(self@)[i]
        &&& ids_labeled(self@)
        &&& self.batch_start <= self.rounds
        &&& self.sequences@.len() == self.rounds - self.batch_start
        &&& self.started == (self.rounds > 0)
    }

    /// The state is consistent.
    pub closed spec fn wf(&self) -> bool {
        &&& self.wf_core()
        &&& (self.started && !self.halted) ==> self.batch_start < self.rounds
    }

    /// A consistent state has a consistent model.
    pub proof fn lemma_wf_model(&self)
        requires
            self.wf(),
        ensures
            model_wf(self@),
    {
    }

    /// A new run with the given setup, rules and label table.
    pub fn new(config: Config, rules: RuleSet, labels: LabelTable) -> (r: Pipeline)
        requires
            config.rounds_per_batch > 0,
        ensures
            r.wf(),
            r@ == initial_view(&config, rules@, labels@),
    {
        let ghost cv = initial_view(&config, rules@, labels@);
        let r = Pipeline {
            rounds_per_batch: config.rounds_per_batch,
            round_cap: config.round_cap,
            level_filter: config.level_filter,
            rules,
            labels,
            halted: false,
            started: false,
            rounds: 0,
            batch_start: 0,
            interner: EventInterner::new(),
            event_labels: Vec::new(),
            sequences: Vec::new(),
            unknown: Vec::new(),
        };
        assert(r@.sequences =~= Seq::empty());
        assert(r@.unknown =~= Seq::empty());
        assert(r@.alphabet.texts =~= Seq::empty());
        assert(r@.alphabet.counts =~= Seq::empty());
        assert(r@ == cv);
        r
    }

    /// A new run with the standard rules and label table; fails when the
    /// regex crate refuses a rule, naming that rule.
    pub fn standard(config: Config) -> (r: Result<Pipeline, InvalidRule>)
        requires
            config.rounds_per_batch > 0,
        ensures
            r matches Ok(p) ==> p.wf() && p@ == initial_view(
                &config,
                crate::sanitize::standard_rules(),
                crate::labels::standard_labels(),
            ),
            r matches Err(e) ==> e.index < crate::sanitize::standard_rules().len(),
    {
        let ghost cv = initial_view(
            &config,
            crate::sanitize::standard_rules(),
            crate::labels::standard_labels(),
        );
        let rules = match RuleSet::standard() {
            Ok(r) => r,
            Err(e) => {
                return Err(e);
            },
        };
        let p = Pipeline::new(config, rules, LabelTable::standard());
        assert(p@ == cv);
        Ok(p)
    }

    /// Hands out the rounds held as a batch and clears them; the alphabet
    /// stays.
    fn flush(&mut self) -> (b: Batch)
        requires
            old(self).wf_core(),
            old(self)@.rounds > old(self)@.batch_start,
        ensures
            final(self).wf_core(),
            final(self)@ == flush_spec(old(self)@),
            b@ == batch_spec(old(self)@),
    {
        let ghost v = self@;
        let mut seqs: Vec<Vec<u64>> = Vec::new();
        core::mem::swap(&mut seqs, &mut self.sequences);
        assert(seqs@.map_values(|s: Vec<u64>| s@) == v.sequences);
        let by_id = clean_all_log_sequence(seqs);
        let ghost cr = collapsed_rounds(v);
        let mut labels: Vec<String> = Vec::new();
        let mut i: usize = 0;
        while i < self.event_labels.len()
            invariant
                i <= self.event_labels@.len(),
                self.event_labels@.len() == v.alphabet.texts.len(),
                labels@.len() == i,
                forall|k: int|
                    0 <= k < self.event_labels@.len() ==> label_view(
                        #[trigger] self.event_labels@[k],
                    ) == id_labels(v)[k],
                forall|k: int| 0 <= k < i ==> (#[trigger] labels@[k])@ == label_texts(v)[k],
            decreases self.event_labels@.len() - i,
        {
            match &self.event_labels[i] {
                Some(l) => labels.push(l.clone()),
                None => labels.push(String::new()),
            }
            i = i + 1;
        }
        assert(labels@.map_values(|s: String| s@) =~= label_texts(v));
        proof {
            assert forall|k: int, j: int|
                0 <= k < by_id@.len() && 0 <= j < by_id@[k]@.len() implies (
                #[trigger] by_id@[k]@[j]) < labels@.len() by {
                lemma_collapse_subset(v.sequences[k]);
                assert(by_id@[k]@ == collapse(v.sequences[k]));
                let x = choose|x: int|
                    0 <= x < v.sequences[k].len() && v.sequences[k][x] == by_id@[k]@[j];
                assert(v.sequences[k][x] < v.alphabet.texts.len());
            }
        }
        let rounds = collapse_label_runs(&by_id, &labels);
        assert(rounds@.map_values(|r: Vec<u64>| r@) =~= cr);
        proof {
            assert forall|k: int, j: int|
                0 <= k < rounds@.len() && 0 <= j < rounds@[k]@.len() implies (
                #[trigger] rounds@[k]@[j]) < labels@.len() by {
                lemma_collapse_by_label_subset(by_id@[k]@, label_texts(v));
                let x = choose|x: int|
                    0 <= x < by_id@[k]@.len() && by_id@[k]@[x] == rounds@[k]@[j];
                assert(by_id@[k]@[x] < labels@.len());
            }
        }
        let alpha = self.interner.len();
        let ids = id_rows(&rounds);
        let parsed = render_table(&ids, alpha);
        let lrows = label_rows(&rounds, &labels);
        let labeled = render_table(&lrows, alpha);
        let mapping = render_mapping(self.interner.texts());
        let first = self.batch_start;
        let last = self.rounds - 1;
        let suffix = render_suffix(first, last);
        self.batch_start = self.rounds;
        assert(rows_view(ids@) =~= cr.map_values(|r: Seq<u64>| id_tokens(r)));
        assert(rows_view(lrows@) =~= cr.map_values(|r: Seq<u64>| label_tokens(r, label_texts(v))));
        assert(self.sequences@.map_values(|s: Vec<u64>| s@) =~= Seq::empty());
        assert(self@ == flush_spec(v));
        Batch { first_round: first, last_round: last, rounds, parsed, labeled, mapping, suffix }
    }

    /// Interns the canonical text of a kept message and, when it has a
    /// label, appends its id to the current round.
    fn record_message(&mut self, message: &String) -> (e: LineEvent)
        requires
            old(self).wf(),
            old(self)@.started,
            !old(self)@.halted,
        ensures
            final(self).wf(),
            (final(self)@, e@) == record(old(self)@, message@),
    {
        let ghost v = self@;
        let c = sanitize_message(&self.rules, message.as_str());
        let old_len = self.interner.len();
        let id = self.interner.intern(&c);
        let ghost (a, gid) = intern_spec(v.alphabet, c@);
        assert(gid == id as nat);
        if id == old_len {
            let l = self.labels.map_log(c.as_str());
            self.event_labels.push(l);
            proof {
                assert(a.texts =~= v.alphabet.texts.push(c@));
            }
        } else {
            proof {
                assert(a.texts =~= v.alphabet.texts);
            }
        }
        let ghost v1 = PipelineView { alphabet: a, ..v };
        assert(self@ == v1);
        assert(id_labels(v1)[id as int] == label_of(v.labels, c@));
        assert forall|i: int| 0 <= i < v.alphabet.texts.len() implies #[trigger] id_labels(v1)[i]
            == id_labels(v)[i] by {
            assert(a.texts[i] == v.alphabet.texts[i]);
        }
        assert forall|i: int| 0 <= i < self.event_labels@.len() implies label_view(
            #[trigger] self.event_labels@[i],
        ) == id_labels(self@)[i] by {
            if i < v.alphabet.texts.len() {
                assert(self.event_labels@[i] == old(self).event_labels@[i]);
            }
        }
        assert(label_view(self.event_labels@[id as int]) == label_of(v.labels, c@));
        match &self.event_labels[id] {
            None => {
                return LineEvent::Unmapped(c);
            },
            Some(_) => {},
        }
        let last = self.sequences.len() - 1;
        let mut cur: Vec<u64> = Vec::new();
        core::mem::swap(&mut cur, &mut self.sequences[last]);
        cur.push(id as u64);
        self.sequences.set(last, cur);
        assert(self@.sequences =~= v.sequences.update(last as int, v.sequences[last as int].push(id as u64)));
        proof {
            let w = self@;
            assert forall|k: int, j: int|
                0 <= k < w.sequences.len() && 0 <= j < w.sequences[k].len() implies {
                let x = #[trigger] w.sequences[k][j];
                &&& x < w.alphabet.texts.len()
                &&& id_labels(w)[x as int] is Some
            } by {
                if k == last as int && j == v.sequences[k].len() {
                    assert(w.sequences[k][j] == id as u64);
                } else {
                    assert(w.sequences[k][j] == v.sequences[k][j]);
                }
            }
        }
        LineEvent::Recorded(id as u64)
    }

    /// Whether the unknown component `c` was reported before.
    fn reported(&self, c: &String) -> (r: bool)
        ensures
            r == self@.unknown.contains(c@),
    {
        let mut i: usize = 0;
        while i < self.unknown.len()
            invariant
                i <= self.unknown@.len(),
                forall|k: int| 0 <= k < i ==> self@.unknown[k] != c@,
            decreases self.unknown@.len() - i,
        {
            assert(self@.unknown[i as int] == self.unknown@[i as int]@);
            if self.unknown[i] == *c {
                assert(self@.unknown.contains(c@));
                return true;
            }
            i = i + 1;
        }
        false
    }

    /// Reads one line: it may open a round (flushing a full batch first),
    /// stop the run at the round cap, or be classified, sanitized, interned
    /// and recorded.
    pub fn process_line(&mut self, line: &str) -> (r: LineOutcome)
        requires
            old(self).wf(),
        ensures
            final(self).wf(),
            (final(self)@, r@) == step(old(self)@, line@),
    {
        let ghost v = self@;
        if self.halted {
            return LineOutcome { batch: None, event: LineEvent::Halted };
        }
        let parsed = match parse_line(line) {
            None => {
                return LineOutcome { batch: None, event: LineEvent::NoMatch };
            },
            Some(p) => p,
        };
        let ghost f = parse_fields(line@)->Some_0;
        assert(parsed.fields() == f);
        assert(filter_view(&self.level_filter) == v.level_filter);
        match match_line(&parsed, &self.level_filter) {
            Verdict::Unknown => {
                if self.reported(&parsed.component) {
                    return LineOutcome { batch: None, event: LineEvent::Dropped };
                }
                assert(!v.unknown.contains(parsed.component@));
                self.unknown.push(parsed.component.clone());
                assert(self@.unknown =~= v.unknown.push(parsed.component@));
                return LineOutcome { batch: None, event: LineEvent::UnknownComponent(parsed.component) };
            },
            Verdict::Drop => {
                return LineOutcome { batch: None, event: LineEvent::Dropped };
            },
            Verdict::Keep => {},
        }
        let msg = chars_of(parsed.message.as_str());
        let sentinel_chars = chars_of(SENTINEL);
        let sentinel = starts_with(&msg, &sentinel_chars);
        assert(sentinel == is_sentinel(f.message));
        let ghost flush = sentinel && flushes_at(v);
        let ghost v1 = if flush {
            flush_spec(v)
        } else {
            v
        };
        let mut batch: Option<Batch> = None;
        if sentinel {
            if self.rounds > 0 && self.rounds % self.rounds_per_batch == 0 {
                batch = Some(self.flush());
            }
            assert(self@ == v1);
            assert(batch_view(batch) == if flush {
                Some(batch_spec(v))
            } else {
                None
            });
            let stop = match self.round_cap {
                Some(c) => self.rounds >= c,
                None => false,
            } || self.rounds == u64::MAX;
            assert(stop == stops_at(v));
            if stop {
                self.halted = true;
                assert(self@ == PipelineView { halted: true, ..v1 });
                return LineOutcome { batch, event: LineEvent::Halted };
            }
            self.sequences.push(Vec::new());
            self.started = true;
            self.rounds = self.rounds + 1;
            assert(self@.sequences =~= v1.sequences.push(Seq::empty()));
            assert(self@ == open_round(v1));
            proof {
                let w = self@;
                assert forall|k: int, j: int|
                    0 <= k < w.sequences.len() && 0 <= j < w.sequences[k].len() implies {
                    let x = #[trigger] w.sequences[k][j];
                    &&& x < w.alphabet.texts.len()
                    &&& id_labels(w)[x as int] is Some
                } by {
                    assert(w.sequences[k] == v1.sequences[k]);
                }
                assert(id_labels(w) == id_labels(v));
            }
        } else {
            assert(self@ == v1);
        }
        let ghost v2 = self@;
        assert(v2 == if sentinel {
            open_round(v1)
        } else {
            v1
        });
        if !self.started {
            return LineOutcome { batch, event: LineEvent::BeforeFirstRound };
        }
        let e = self.record_message(&parsed.message);
        LineOutcome { batch, event: e }
    }

    /// Ends the input: the rounds still held are flushed as a last batch,
    /// and the run stops.
    pub fn finish(&mut self) -> (r: Option<Batch>)
        requires
            old(self).wf(),
        ensures
            final(self).wf(),
            (final(self)@, batch_view(r)) == finish_spec(old(self)@),
    {
        if self.sequences.len() > 0 {
            let b = self.flush();
            self.halted = true;
            Some(b)
        } else {
            self.halted = true;
            None
        }
    }

    /// Reads every line of a whole input, then its end; gives every batch
    /// in order.
    pub fn run_all(&mut self, lines: &Vec<String>) -> (r: Vec<Batch>)
        requires
            old(self).wf(),
        ensures
            final(self).wf(),
            (final(self)@, r@.map_values(|b: Batch| b@)) == run_to_end(
                old(self)@,
                lines@.map_values(|l: String| l@),
            ),
    {
        let ghost v = self@;
        let ghost ls = lines@.map_values(|l: String| l@);
        let mut out: Vec<Batch> = Vec::new();
        let mut i: usize = 0;
        assert(ls.subrange(0, 0) =~= Seq::<Seq<char>>::empty());
        assert(out@.map_values(|b: Batch| b@) =~= Seq::<BatchView>::empty());
        while i < lines.len()
            invariant
                i <= lines@.len(),
                ls == lines@.map_values(|l: String| l@),
                self.wf(),
                (self@, out@.map_values(|b: Batch| b@)) == run(v, ls.subrange(0, i as int)),
            decreases lines@.len() - i,
        {
            let o = self.process_line(lines[i].as_str());
            let ghost prev = out@.map_values(|b: Batch| b@);
            assert(ls.subrange(0, i + 1).drop_last() =~= ls.subrange(0, i as int));
            assert(ls.subrange(0, i + 1).last() == lines@[i as int]@);
            match o.batch {
                Some(b) => {
                    out.push(b);
                    assert(out@.map_values(|b: Batch| b@) =~= prev.push(b@));
                },
                None => {},
            }
            i = i + 1;
        }
        assert(ls.subrange(0, ls.len() as int) =~= ls);
        let ghost prev = out@.map_values(|b: Batch| b@);
        match self.finish() {
            Some(b) => {
                out.push(b);
                assert(out@.map_values(|b: Batch| b@) =~= prev.push(b@));
            },
            None => {},
        }
        out
    }

    /// The run has stopped.
    pub fn is_halted(&self) -> (r: bool)
        ensures
            r == self@.halted,
    {
        self.halted
    }

    /// The number of rounds opened so far.
    pub fn round_count(&self) -> (r: u64)
        ensures
            r == self@.rounds,
    {
        self.rounds
    }

    /// The number of ids given out so far.
    pub fn alphabet_size(&self) -> (r: usize)
        ensures
            r == self@.alphabet.texts.len(),
    {
        self.interner.len()
    }
}

} // verus!
