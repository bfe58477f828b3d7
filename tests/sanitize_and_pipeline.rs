use log_trace::interner::EventInterner;
use log_trace::labels::LabelTable;
use log_trace::pipeline::{Batch, Config, LineEvent, Pipeline};
use log_trace::sanitize::{sanitize_message, standard_rule_texts, InvalidRule, Rule, RuleSet};
use log_trace::collapse::clean_all_log_sequence;

const HASH: &str = "58B57FBEF009EB802DA44B7B35E362DA33648FCD2FE3C3DA235C54EFC8A082A8";
const NODE: &str = "nHBe4vqSAzjpPRLKwSFzRFtmvzXaf5wPPmuVrQCAoJoS1zskgDA4";
const ENTER: &str = "LedgerConsensus:NFO Entering consensus process, validating, synced=no";

fn header(msg: &str) -> String {
    format!("2019-Jan-24 15:08:27.123456789 {}", msg)
}

fn rules() -> RuleSet {
    RuleSet::standard().expect("standard rules compile")
}

fn config(rounds_per_batch: u64, round_cap: Option<u64>) -> Config {
    Config { rounds_per_batch, round_cap, level_filter: None }
}

fn pipeline(rounds_per_batch: u64, round_cap: Option<u64>) -> Pipeline {
    Pipeline::standard(config(rounds_per_batch, round_cap)).expect("standard rules compile")
}

fn run(lines: &[String], rounds_per_batch: u64) -> Vec<Batch> {
    let mut p = pipeline(rounds_per_batch, None);
    p.run_all(&lines.to_vec())
}

fn no_triple<T: PartialEq>(s: &[T]) -> bool {
    (2..s.len()).all(|i| !(s[i] == s[i - 1] && s[i - 1] == s[i - 2]))
}

#[test]
fn standard_rules_compile_in_order() {
    let texts = standard_rule_texts();
    assert_eq!(texts.len(), 86);
    assert_eq!(texts[0], (r"[0-9A-F]{64}", "#some-base-16-hash"));
    assert!(RuleSet::standard().is_ok());
}

#[test]
fn invalid_pattern_is_reported_by_index() {
    let r = RuleSet::compile(&vec![("a+", "b"), ("(", "c")]);
    assert_eq!(r.err(), Some(InvalidRule { index: 1 }));
}

#[test]
fn rule_replaces_every_match() {
    let r = Rule::new("[0-9]+", "#n").unwrap();
    assert_eq!(r.apply("a12b3"), "a#nb#n");
    assert_eq!(r.apply("none"), "none");
    assert!(Rule::new("[", "x").is_none());
}

#[test]
fn chain_from_compiled_rules() {
    let ok = RuleSet::from_rules(vec![Rule::new("a", "b"), Rule::new("b", "c")]).unwrap();
    assert_eq!(sanitize_message(&ok, "ab"), "cc");
    let r = RuleSet::from_rules(vec![Rule::new("a", "b"), None, Rule::new("(", "c"), None]);
    assert_eq!(r.err(), Some(InvalidRule { index: 1 }));
    let r = RuleSet::from_rules(vec![Rule::new("(", "c")]);
    assert_eq!(r.err(), Some(InvalidRule { index: 0 }));
    assert!(RuleSet::from_rules(vec![]).is_ok());
    assert!(RuleSet::compile(&vec![]).is_ok());
}

#[test]
fn fresh_pipeline_is_empty() {
    let mut p = pipeline(50, None);
    assert!(!p.is_halted());
    assert_eq!(p.round_count(), 0);
    assert_eq!(p.alphabet_size(), 0);
    p.process_line(&header(ENTER));
    let o = p.process_line(&header("Foo:DBG first sighting"));
    assert!(matches!(o.event, LineEvent::UnknownComponent(_)));
}

#[test]
fn custom_rules_apply_in_order() {
    let set = RuleSet::compile(&vec![("a+", "b"), ("b{2}", "c")]).unwrap();
    assert_eq!(sanitize_message(&set, "aab xa"), "c xb");
    let empty = RuleSet::compile(&vec![]).unwrap();
    assert_eq!(sanitize_message(&empty, "aab"), "aab");
}

#[test]
fn sanitize_validation_message() {
    let m = format!(
        "Validations:DBG Val for {} trusted/full from {} signing key {} current src=3",
        HASH, NODE, NODE
    );
    let s = sanitize_message(&rules(), &m);
    assert_eq!(
        s,
        "Validations:DBG Val for #some-base-16-hash trusted/full from #some-id signing key #some-id current src=#some-src-num"
    );
    assert_eq!(s.matches("#some-base-16-hash").count(), 1);
    assert_eq!(s.matches("#some-id").count(), 2);
    assert_eq!(s.matches("#some-src-num").count(), 1);
    assert_eq!(
        LabelTable::standard().map_log(&s),
        Some("valHashTrustedFullCurrent".to_string())
    );
}

#[test]
fn sanitize_collapses_volatile_parts() {
    let r = rules();
    assert_eq!(
        sanitize_message(&r, "Peer:DBG connected to 10.0.0.5:51235"),
        "Peer:DBG connected to #some-ip"
    );
    assert_eq!(sanitize_message(&r, "Protocol:DBG job #5334"), "Protocol:DBG job #some-num");
    assert_eq!(
        sanitize_message(&r, &format!("LedgerConsensus:NFO Want: {}", HASH)),
        "LedgerConsensus:NFO Want: #some-base-16-hash"
    );
    assert_eq!(
        sanitize_message(&r, &format!("LedgerConsensus:NFO {} to {}", HASH, HASH)),
        "LedgerConsensus:NFO #some-base-16-hash to #some-base-16-hash"
    );
}

#[test]
fn sanitize_twice_is_sanitize_once_on_samples() {
    let r = rules();
    let samples = vec![
        format!(
            "Validations:DBG Val for {} trusted/full from {} signing key {} current src=3",
            HASH, NODE, NODE
        ),
        "Peer:DBG connected to 10.0.0.5:51235".to_string(),
        ENTER.to_string(),
        "LedgerConsensus:NFO Proposers:5 nw:80 thrV:4 thrC:4".to_string(),
        "LedgerMaster:NFO Advancing accepted ledger to 4567 with >= 4 validations".to_string(),
    ];
    for m in samples {
        let once = sanitize_message(&r, &m);
        assert_eq!(sanitize_message(&r, &once), once);
    }
}

#[test]
fn close_time_rule_consumes_neighbours() {
    let r = rules();
    let once = sanitize_message(&r, "NetworkOPs:NFO x123456789 987654321y");
    assert_eq!(once, "NetworkOPs:NFO #some-ledger-close-time987654321y");
}

#[test]
fn interner_assigns_first_seen_ids() {
    let mut i = EventInterner::new();
    assert_eq!(i.intern(&"b".to_string()), 0);
    assert_eq!(i.intern(&"a".to_string()), 1);
    assert_eq!(i.intern(&"b".to_string()), 0);
    assert_eq!(i.intern(&"c".to_string()), 2);
    assert_eq!(i.len(), 3);
    assert_eq!(i.text(1), "a");
    assert_eq!(i.count(0), 2);
    assert_eq!(i.count(2), 1);
}

#[test]
fn repeated_event_collapses_to_two() {
    let r = rules();
    let mut interner = EventInterner::new();
    let mut round = Vec::new();
    for _ in 0..3 {
        let c = sanitize_message(&r, ENTER);
        round.push(interner.intern(&c) as u64);
    }
    assert_eq!(round, vec![0, 0, 0]);
    let collapsed = clean_all_log_sequence(vec![round]);
    assert_eq!(collapsed, vec![vec![0, 0]]);
}

#[test]
fn whole_run_renders_three_files() {
    let lines = vec![
        header(ENTER),
        header("NetworkOPs:NFO STATE->full"),
        header("NetworkOPs:NFO STATE->full"),
        header("NetworkOPs:NFO STATE->full"),
    ];
    let b = run(&lines, 50);
    assert_eq!(b.len(), 1);
    assert_eq!(b[0].rounds, vec![vec![0, 1, 1]]);
    assert_eq!(b[0].parsed, "1 2\n1 3 0 1 1\n");
    assert_eq!(b[0].labeled, "1 2\n1 3 enterConsensusValidating stateFull stateFull\n");
    assert_eq!(
        b[0].mapping,
        format!("0 {}\n1 NetworkOPs:NFO STATE->full\n", ENTER)
    );
    assert_eq!(b[0].suffix, "_rounds_000_000");
    assert_eq!((b[0].first_round, b[0].last_round), (0, 0));
}

#[test]
fn lines_before_first_round_are_dropped() {
    let lines = vec![
        header("NetworkOPs:NFO STATE->tracking"),
        header("NetworkOPs:NFO STATE->full"),
        header(ENTER),
        header("NetworkOPs:NFO STATE->full"),
    ];
    let mut p = pipeline(50, None);
    let o = p.process_line(&lines[0]);
    assert!(matches!(o.event, LineEvent::BeforeFirstRound));
    assert_eq!(p.alphabet_size(), 0);
    let b = p.run_all(&lines[1..].to_vec());
    assert_eq!(b.len(), 1);
    assert_eq!(b[0].rounds, vec![vec![0, 1]]);
    assert!(!b[0].mapping.contains("STATE->tracking"));
    assert_eq!(b[0].mapping, format!("0 {}\n1 NetworkOPs:NFO STATE->full\n", ENTER));
}

#[test]
fn no_input_no_batch() {
    assert!(run(&[], 50).is_empty());
    let only_before = vec![header("NetworkOPs:NFO STATE->full"), "garbage".to_string()];
    assert!(run(&only_before, 50).is_empty());
}

#[test]
fn denied_and_unknown_components() {
    let mut p = pipeline(50, None);
    p.process_line(&header(ENTER));
    let o = p.process_line(&header("Peer:DBG connected to 10.0.0.5:51235"));
    assert!(matches!(o.event, LineEvent::Dropped));
    let o = p.process_line(&header("Foo:DBG something"));
    match o.event {
        LineEvent::UnknownComponent(c) => assert_eq!(c, "Foo"),
        _ => panic!("expected a report"),
    }
    let o = p.process_line(&header("Foo:DBG something else"));
    assert!(matches!(o.event, LineEvent::Dropped));
    let o = p.process_line("not a log line");
    assert!(matches!(o.event, LineEvent::NoMatch));
    let b = p.finish().unwrap();
    assert_eq!(b.rounds, vec![vec![0]]);
    assert!(!b.mapping.contains("connected"));
    assert!(!b.mapping.contains("Foo"));
}

#[test]
fn unmapped_message_is_interned_not_recorded() {
    let mut p = pipeline(50, None);
    p.process_line(&header(ENTER));
    let o = p.process_line(&header("NetworkOPs:NFO some message nobody labeled"));
    match o.event {
        LineEvent::Unmapped(m) => assert_eq!(m, "NetworkOPs:NFO some message nobody labeled"),
        _ => panic!("expected unmapped"),
    }
    let o = p.process_line(&header("NetworkOPs:NFO STATE->full"));
    assert!(matches!(o.event, LineEvent::Recorded(2)));
    let b = p.finish().unwrap();
    assert_eq!(b.rounds, vec![vec![0, 2]]);
    assert_eq!(b.parsed, "1 3\n1 2 0 2\n");
    assert_eq!(b.labeled, "1 3\n1 2 enterConsensusValidating stateFull\n");
    assert!(b.mapping.contains("1 NetworkOPs:NFO some message nobody labeled\n"));
}

#[test]
fn level_filter_keeps_one_level() {
    let cfg = Config {
        rounds_per_batch: 50,
        round_cap: None,
        level_filter: Some("NFO".to_string()),
    };
    let mut p = Pipeline::standard(cfg).unwrap();
    p.process_line(&header(ENTER));
    let o = p.process_line(&header("NetworkOPs:DBG STATE->full"));
    assert!(matches!(o.event, LineEvent::Dropped));
    let o = p.process_line(&header("NetworkOPs:NFO STATE->full"));
    assert!(matches!(o.event, LineEvent::Recorded(1)));
    let b = p.finish().unwrap();
    assert_eq!(b.rounds, vec![vec![0, 1]]);
    assert_eq!(p.round_count(), 1);
}

#[test]
fn dropped_sentinel_opens_no_round() {
    let cfg = Config {
        rounds_per_batch: 50,
        round_cap: None,
        level_filter: Some("DBG".to_string()),
    };
    let mut p = Pipeline::standard(cfg).unwrap();
    let o = p.process_line(&header(ENTER));
    assert!(matches!(o.event, LineEvent::Dropped));
    assert_eq!(p.round_count(), 0);
    let o = p.process_line(&header("NetworkOPs:DBG STATE->full"));
    assert!(matches!(o.event, LineEvent::BeforeFirstRound));
    assert!(p.finish().is_none());
}

#[test]
fn shared_label_never_shows_three_times() {
    let fat3 = format!("Ledger:WRN getNodeFat( NodeID(3,{})) throws exception: AS node", HASH);
    let fat5 = format!("Ledger:WRN getNodeFat( NodeID(5,{})) throws exception: AS node", HASH);
    let lines = vec![
        header(ENTER),
        header(&fat3),
        header(&fat3),
        header(&fat5),
        header(&fat5),
        header(&fat3),
    ];
    let b = run(&lines, 50);
    assert_eq!(b[0].rounds, vec![vec![0, 1, 1]]);
    assert_eq!(b[0].parsed, "1 3\n1 3 0 1 1\n");
    assert_eq!(b[0].labeled, "1 3\n1 3 enterConsensusValidating getNodeFat getNodeFat\n");
    let lines = vec![header(ENTER), header(&fat3), header(&fat5), header(&fat3), header(ENTER)];
    let b = run(&lines, 50);
    assert_eq!(b[0].rounds, vec![vec![0, 1, 2], vec![0]]);
    assert_eq!(b[0].labeled, "2 3\n1 3 enterConsensusValidating getNodeFat getNodeFat\n1 1 enterConsensusValidating\n");
}

#[test]
fn batches_flush_every_configured_rounds() {
    let mut lines = Vec::new();
    for _ in 0..5 {
        lines.push(header(ENTER));
        lines.push(header("NetworkOPs:NFO STATE->full"));
    }
    let b = run(&lines, 2);
    assert_eq!(b.len(), 3);
    assert_eq!(b[0].suffix, "_rounds_000_001");
    assert_eq!(b[1].suffix, "_rounds_002_003");
    assert_eq!(b[2].suffix, "_rounds_004_004");
    assert_eq!(b[0].rounds, vec![vec![0, 1], vec![0, 1]]);
    assert_eq!(b[2].rounds, vec![vec![0, 1]]);
    assert_eq!(b[0].parsed, "2 2\n1 2 0 1\n1 2 0 1\n");
    assert_eq!(b[2].parsed, "1 2\n1 2 0 1\n");
}

#[test]
fn alphabet_persists_across_batches() {
    let lines = vec![
        header(ENTER),
        header("NetworkOPs:NFO STATE->full"),
        header(ENTER),
        header("NetworkOPs:NFO STATE->syncing"),
        header("NetworkOPs:NFO STATE->full"),
    ];
    let b = run(&lines, 1);
    assert_eq!(b.len(), 2);
    assert_eq!(b[0].rounds, vec![vec![0, 1]]);
    assert_eq!(b[1].rounds, vec![vec![0, 2, 1]]);
    assert!(b[1].mapping.starts_with(&b[0].mapping));
    assert_eq!(b[1].labeled, "1 3\n1 3 enterConsensusValidating stateSyncing stateFull\n");
}

#[test]
fn round_cap_stops_the_run() {
    let mut p = pipeline(2, Some(2));
    let mut flushed = Vec::new();
    let lines = vec![
        header(ENTER),
        header(ENTER),
        header(ENTER),
        header("NetworkOPs:NFO STATE->full"),
    ];
    let mut halted_at = None;
    for (i, l) in lines.iter().enumerate() {
        let o = p.process_line(l);
        if let Some(b) = o.batch {
            flushed.push(b);
        }
        if matches!(o.event, LineEvent::Halted) && halted_at.is_none() {
            halted_at = Some(i);
        }
    }
    assert_eq!(halted_at, Some(2));
    assert!(p.is_halted());
    assert_eq!(p.round_count(), 2);
    assert_eq!(flushed.len(), 1);
    assert_eq!(flushed[0].suffix, "_rounds_000_001");
    assert!(p.finish().is_none());
}

#[test]
fn same_input_same_output() {
    let lines = vec![
        "garbage".to_string(),
        header(ENTER),
        header("NetworkOPs:NFO STATE->full"),
        header(&format!("LedgerConsensus:NFO Want: {}", HASH)),
        header("Foo:DBG x"),
        header(ENTER),
        header("NetworkOPs:NFO STATE->syncing"),
    ];
    let a = run(&lines, 1);
    let b = run(&lines, 1);
    assert_eq!(a.len(), b.len());
    for (x, y) in a.iter().zip(b.iter()) {
        assert_eq!(x.parsed, y.parsed);
        assert_eq!(x.labeled, y.labeled);
        assert_eq!(x.mapping, y.mapping);
        assert_eq!(x.suffix, y.suffix);
    }
}

#[test]
fn mapping_lists_ids_in_first_seen_order() {
    let lines = vec![
        header(ENTER),
        header("NetworkOPs:NFO STATE->syncing"),
        header("NetworkOPs:NFO STATE->full"),
        header("NetworkOPs:NFO STATE->syncing"),
        header("NetworkOPs:NFO STATE->tracking"),
    ];
    let b = run(&lines, 50);
    let ids: Vec<String> = b[0]
        .mapping
        .lines()
        .map(|l| l.split(' ').next().unwrap().to_string())
        .collect();
    assert_eq!(ids, vec!["0", "1", "2", "3"]);
    assert!(b[0].mapping.contains("1 NetworkOPs:NFO STATE->syncing\n"));
    assert!(b[0].mapping.contains("3 NetworkOPs:NFO STATE->tracking\n"));
}

#[test]
fn outputs_have_no_triple_and_align() {
    let mut lines = vec![header(ENTER)];
    for _ in 0..4 {
        lines.push(header("NetworkOPs:NFO STATE->full"));
    }
    lines.push(header("NetworkOPs:NFO STATE->syncing"));
    for _ in 0..3 {
        lines.push(header("NetworkOPs:NFO STATE->full"));
    }
    let b = run(&lines, 50);
    let parsed: Vec<&str> = b[0].parsed.lines().collect();
    let labeled: Vec<&str> = b[0].labeled.lines().collect();
    assert_eq!(parsed.len(), labeled.len());
    assert_eq!(parsed[0], labeled[0]);
    for (p, l) in parsed.iter().zip(labeled.iter()).skip(1) {
        let pt: Vec<&str> = p.split(' ').collect();
        let lt: Vec<&str> = l.split(' ').collect();
        assert_eq!(pt.len(), lt.len());
        assert!(no_triple(&pt[2..]));
        assert!(no_triple(&lt[2..]));
    }
    for r in &b[0].rounds {
        assert!(no_triple(r));
    }
    assert_eq!(b[0].rounds, vec![vec![0, 1, 1, 2, 1, 1]]);
}
