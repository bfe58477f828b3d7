use log_trace::classify::{match_line, parse_line, Verdict};
use log_trace::collapse::{clean_all_log_sequence, collapse_label_runs};
use log_trace::labels::{key_of, LabelTable};
use log_trace::output::{render_mapping, render_suffix, render_table};
use log_trace::text::{chars_of, push_decimal, same_text, starts_with, trimmed};

fn header(msg: &str) -> String {
    format!("2019-Jan-24 15:08:27.123456789 {}", msg)
}

#[test]
fn parse_line_splits_header_fields() {
    let l = header("LedgerConsensus:NFO Entering consensus process, validating, synced=no");
    let p = parse_line(&l).expect("header shape");
    assert_eq!(p.component, "LedgerConsensus");
    assert_eq!(p.level, "NFO");
    assert_eq!(
        p.message,
        "LedgerConsensus:NFO Entering consensus process, validating, synced=no"
    );
}

#[test]
fn parse_line_rejects_other_shapes() {
    assert!(parse_line("").is_none());
    assert!(parse_line("too short").is_none());
    assert!(parse_line(&header("NoColonHere text")).is_none());
    assert!(parse_line(&header("Peer:DBG")).is_none());
    assert!(parse_line(&header("Peer:DBG ")).is_none());
    assert!(parse_line(&header(":DBG text")).is_none());
    assert!(parse_line("2019-Jan-24x15:08:27.123456789 Peer:DBG text").is_none());
    assert!(parse_line(&header("Peer:DBG x")).is_some());
}

#[test]
fn component_table_keeps_drops_and_reports() {
    let kept = parse_line(&header("NetworkOPs:NFO STATE->full")).unwrap();
    let denied = parse_line(&header("Peer:DBG connected to 10.0.0.5:51235")).unwrap();
    let unknown = parse_line(&header("Foo:DBG something")).unwrap();
    assert_eq!(match_line(&kept, &None), Verdict::Keep);
    assert_eq!(match_line(&denied, &None), Verdict::Drop);
    assert_eq!(match_line(&unknown, &None), Verdict::Unknown);
    assert_eq!(match_line(&kept, &Some("NFO".to_string())), Verdict::Keep);
    assert_eq!(match_line(&kept, &Some("DBG".to_string())), Verdict::Drop);
    assert_eq!(match_line(&unknown, &Some("DBG".to_string())), Verdict::Unknown);
}

#[test]
fn text_helpers() {
    assert_eq!(chars_of("añb"), vec!['a', 'ñ', 'b']);
    assert!(starts_with(&chars_of("abc"), &chars_of("ab")));
    assert!(!starts_with(&chars_of("ab"), &chars_of("abc")));
    assert!(!starts_with(&chars_of("abc"), &chars_of("b")));
    assert!(same_text("abc", "abc"));
    assert!(!same_text("abc", "abd"));
    assert_eq!(trimmed("  a b \t\r\n"), "a b");
    assert_eq!(trimmed("   "), "");
    let mut s = String::from("n=");
    push_decimal(&mut s, 0);
    push_decimal(&mut s, 1234567890);
    assert_eq!(s, "n=01234567890");
}

#[test]
fn label_key_strips_prefix_and_trims() {
    assert_eq!(key_of("NetworkOPs:NFO   STATE->full  "), Some("STATE->full".to_string()));
    assert_eq!(key_of("nospace"), None);
    assert_eq!(key_of("a:b "), Some(String::new()));
}

#[test]
fn standard_label_table_lookups() {
    let t = LabelTable::standard();
    assert_eq!(t.map_log("NetworkOPs:NFO STATE->full"), Some("stateFull".to_string()));
    assert_eq!(
        t.map_log("LedgerConsensus:NFO Entering consensus process, validating, synced=no"),
        Some("enterConsensusValidating".to_string())
    );
    assert_eq!(t.map_log("NetworkOPs:NFO no such message"), None);
    assert_eq!(t.map_log("STATE->full"), None);
    assert_eq!(t.map_log("NetworkOPs:NFO#some-ledger-close-time"), None);
    assert_eq!(t.lookup(&"Started".to_string()), Some("started".to_string()));
    assert_eq!(t.lookup(&"started".to_string()), None);
}

#[test]
fn custom_label_table_takes_first_entry() {
    let t = LabelTable::from_pairs(&vec![("a", "first"), ("a", "second"), ("b", "bee")]);
    assert_eq!(t.lookup(&"a".to_string()), Some("first".to_string()));
    assert_eq!(t.lookup(&"b".to_string()), Some("bee".to_string()));
    assert_eq!(t.lookup(&"c".to_string()), None);
}

#[test]
fn collapse_keeps_two_of_each_run() {
    let r = clean_all_log_sequence(vec![vec![1, 1, 1, 1, 2, 2, 2, 1], vec![], vec![5, 5], vec![5]]);
    assert_eq!(r, vec![vec![1, 1, 2, 2, 1], vec![], vec![5, 5], vec![5]]);
    let r = clean_all_log_sequence(vec![vec![u64::MAX, u64::MAX, 3, u64::MAX]]);
    assert_eq!(r, vec![vec![u64::MAX, u64::MAX, 3, u64::MAX]]);
    assert_eq!(clean_all_log_sequence(vec![]), Vec::<Vec<u64>>::new());
}

#[test]
fn collapse_output_has_no_triple() {
    let input = vec![vec![7, 7, 7, 3, 3, 3, 3, 7, 7, 7, 7, 7]];
    let r = clean_all_log_sequence(input);
    for round in &r {
        for i in 2..round.len() {
            assert!(!(round[i] == round[i - 1] && round[i - 1] == round[i - 2]));
        }
    }
    assert_eq!(r, vec![vec![7, 7, 3, 3, 7, 7]]);
}

#[test]
fn suffix_pads_to_three_digits() {
    assert_eq!(render_suffix(0, 49), "_rounds_000_049");
    assert_eq!(render_suffix(450, 499), "_rounds_450_499");
    assert_eq!(render_suffix(1000, 1049), "_rounds_1000_1049");
    assert_eq!(render_suffix(5, 5), "_rounds_005_005");
}

#[test]
fn table_and_mapping_text() {
    let rows = vec![
        vec!["0".to_string(), "1".to_string()],
        vec![],
        vec!["12".to_string()],
    ];
    assert_eq!(render_table(&rows, 13), "3 13\n1 2 0 1\n1 0\n1 1 12\n");
    assert_eq!(render_table(&vec![], 0), "0 0\n");
    let texts = vec!["a b".to_string(), "c".to_string()];
    assert_eq!(render_mapping(&texts), "0 a b\n1 c\n");
    assert_eq!(render_mapping(&vec![]), "");
}

#[test]
fn label_runs_are_cut_to_two() {
    let labels = vec!["x".to_string(), "y".to_string(), "y".to_string()];
    let r = collapse_label_runs(&vec![vec![0, 1, 1, 2, 2, 1, 0], vec![2, 1, 2]], &labels);
    assert_eq!(r, vec![vec![0, 1, 1, 0], vec![2, 1]]);
    assert_eq!(collapse_label_runs(&vec![vec![]], &labels), vec![Vec::<u64>::new()]);
}
