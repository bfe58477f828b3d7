//! Classification of raw log lines: the fixed header shape and the table of
//! components whose lines are kept.
use vstd::prelude::*;

use crate::text::{chars_of, same_text, scan_word, word_end};

verus! {

/// Width of the first opaque header field (the date).
pub const DATE_WIDTH: usize = 11;

/// Width of the second opaque header field (the time of day).
pub const TIME_WIDTH: usize = 18;

/// Index at which the `component:level` part of a line begins.
pub const BODY_START: usize = 31;

/// A line that has the header shape: its component, its level, and its
/// message, which runs from the component to the end of the line.
pub struct ParsedLine {
    pub component: String,
    pub level: String,
    pub message: String,
}

/// The fields of a line as plain text.
pub struct LineFields {
    pub component: Seq<char>,
    pub level: Seq<char>,
    pub message: Seq<char>,
}

impl ParsedLine {
    pub open spec fn fields(&self) -> LineFields {
        LineFields { component: self.component@, level: self.level@, message: self.message@ }
    }
}

/// The fields of `line` when it has the shape
/// `<11 chars> <18 chars> <component>:<level> <text>`, where component and
/// level are non-empty runs of word characters and the text is non-empty.
pub open spec fn parse_fields(line: Seq<char>) -> Option<LineFields> {
    if line.len() >= BODY_START && line[DATE_WIDTH as int] == ' ' && line[(BODY_START - 1) as int]
        == ' ' {
        let ce = word_end(line, BODY_START as nat);
        if BODY_START < ce < line.len() && line[ce as int] == ':' {
            let le = word_end(line, ce + 1);
            if ce + 1 < le && le + 1 < line.len() && line[le as int] == ' ' {
                Some(
                    LineFields {
                        component: line.subrange(BODY_START as int, ce as int),
                        level: line.subrange((ce + 1) as int, le as int),
                        message: line.subrange(BODY_START as int, line.len() as int),
                    },
                )
            } else {
                None
            }
        } else {
            None
        }
    } else {
        None
    }
}

/// Splits a raw line into component, level and message, or gives `None`
/// when the line does not have the header shape.
pub fn parse_line(line: &str) -> (r: Option<ParsedLine>)
    ensures
        r is None <==> parse_fields(line@) is None,
        r matches Some(p) ==> parse_fields(line@) == Some(p.fields()),
{
    let c = chars_of(line);
    let n = c.len();
    if !(n >= BODY_START && c[DATE_WIDTH] == ' ' && c[BODY_START - 1] == ' ') {
        return None;
    }
    let ce = scan_word(&c, BODY_START);
    if !(BODY_START < ce && ce < n && c[ce] == ':') {
        return None;
    }
    let le = scan_word(&c, ce + 1);
    if !(ce + 1 < le && le < n - 1 && c[le] == ' ') {
        return None;
    }
    let component = line.substring_char(BODY_START, ce).to_owned();
    let level = line.substring_char(ce + 1, le).to_owned();
    let message = line.substring_char(BODY_START, n).to_owned();
    Some(ParsedLine { component, level, message })
}

/// What the table says of a component: `Some(true)` keeps its lines,
/// `Some(false)` drops them, `None` means the component is not listed.
pub open spec fn component_rule(c: Seq<char>) -> Option<bool> {
    if c == "NetworkOPs"@ {
        Some(true)
    } else if c == "LedgerConsensus"@ {
        Some(true)
    } else if c == "LedgerMaster"@ {
        Some(true)
    } else if c == "Protocol"@ {
        Some(true)
    } else if c == "Peer"@ {
        Some(false)
    } else if c == "Application"@ {
        Some(false)
    } else if c == "LoadManager"@ {
        Some(false)
    } else if c == "LoadMonitor"@ {
        Some(false)
    } else if c == "PeerFinder"@ {
        Some(false)
    } else if c == "ManifestCache"@ {
        Some(false)
    } else if c == "Server"@ {
        Some(false)
    } else if c == "Validations"@ {
        Some(true)
    } else if c == "Resource"@ {
        Some(false)
    } else if c == "Ledger"@ {
        Some(true)
    } else if c == "JobQueue"@ {
        Some(true)
    } else if c == "NodeStore"@ {
        Some(true)
    } else if c == "TaggedCache"@ {
        Some(true)
    } else if c == "Amendments"@ {
        Some(true)
    } else if c == "OrderBookDB"@ {
        Some(true)
    } else if c == "ValidatorList"@ {
        Some(true)
    } else if c == "ValidatorSite"@ {
        Some(false)
    } else if c == "Flow"@ {
        Some(false)
    } else if c == "TimeKeeper"@ {
        Some(true)
    } else if c == "InboundLedger"@ {
        Some(true)
    } else if c == "TransactionAcquire"@ {
        Some(true)
    } else if c == "LedgerHistory"@ {
        Some(true)
    } else if c == "OpenLedger"@ {
        Some(false)
    } else if c == "PathRequest"@ {
        Some(true)
    } else if c == "TxQ"@ {
        Some(true)
    } else if c == "Resolver"@ {
        Some(false)
    } else if c == "Overlay"@ {
        Some(false)
    } else if c == "LedgerCleaner"@ {
        Some(false)
    } else {
        None
    }
}

/// Looks `c` up in the component table.
pub fn component_verdict(c: &str) -> (r: Option<bool>)
    ensures
        r == component_rule(c@),
{
    if same_text(c, "NetworkOPs") {
        Some(true)
    } else if same_text(c, "LedgerConsensus") {
        Some(true)
    } else if same_text(c, "LedgerMaster") {
        Some(true)
    } else if same_text(c, "Protocol") {
        Some(true)
    } else if same_text(c, "Peer") {
        Some(false)
    } else if same_text(c, "Application") {
        Some(false)
    } else if same_text(c, "LoadManager") {
        Some(false)
    } else if same_text(c, "LoadMonitor") {
        Some(false)
    } else if same_text(c, "PeerFinder") {
        Some(false)
    } else if same_text(c, "ManifestCache") {
        Some(false)
    } else if same_text(c, "Server") {
        Some(false)
    } else if same_text(c, "Validations") {
        Some(true)
    } else if same_text(c, "Resource") {
        Some(false)
    } else if same_text(c, "Ledger") {
        Some(true)
    } else if same_text(c, "JobQueue") {
        Some(true)
    } else if same_text(c, "NodeStore") {
        Some(true)
    } else if same_text(c, "TaggedCache") {
        Some(true)
    } else if same_text(c, "Amendments") {
        Some(true)
    } else if same_text(c, "OrderBookDB") {
        Some(true)
    } else if same_text(c, "ValidatorList") {
        Some(true)
    } else if same_text(c, "ValidatorSite") {
        Some(false)
    } else if same_text(c, "Flow") {
        Some(false)
    } else if same_text(c, "TimeKeeper") {
        Some(true)
    } else if same_text(c, "InboundLedger") {
        Some(true)
    } else if same_text(c, "TransactionAcquire") {
        Some(true)
    } else if same_text(c, "LedgerHistory") {
        Some(true)
    } else if same_text(c, "OpenLedger") {
        Some(false)
    } else if same_text(c, "PathRequest") {
        Some(true)
    } else if same_text(c, "TxQ") {
        Some(true)
    } else if same_text(c, "Resolver") {
        Some(false)
    } else if same_text(c, "Overlay") {
        Some(false)
    } else if same_text(c, "LedgerCleaner") {
        Some(false)
    } else {
        None
    }
}

/// What becomes of a line that has the header shape.
#[derive(PartialEq, Eq, Structural, Clone, Copy, Debug)]
pub enum Verdict {
    /// The line is processed.
    Keep,
    /// The line is dropped without comment.
    Drop,
    /// The component is not in the table: the line is dropped and reported.
    Unknown,
}

/// The verdict on a line with `component` and `level`: the component table
/// decides, and a level filter, when given, drops lines of other levels.
pub open spec fn verdict_of(component: Seq<char>, level: Seq<char>, level_filter: Option<Seq<char>>) -> Verdict {
    match component_rule(component) {
        None => Verdict::Unknown,
        Some(false) => Verdict::Drop,
        Some(true) => match level_filter {
            Some(l) => if l == level { Verdict::Keep } else { Verdict::Drop },
            None => Verdict::Keep,
        },
    }
}

/// The view of an optional level filter.
pub open spec fn filter_view(f: &Option<String>) -> Option<Seq<char>> {
    match f {
        Some(l) => Some(l@),
        None => None,
    }
}

/// Decides whether a parsed line is kept.
pub fn match_line(line: &ParsedLine, level_filter: &Option<String>) -> (r: Verdict)
    ensures
        r == verdict_of(line.component@, line.level@, filter_view(level_filter)),
{
    match component_verdict(line.component.as_str()) {
        None => Verdict::Unknown,
        Some(false) => Verdict::Drop,
        Some(true) => match level_filter {
            Some(l) => if same_text(l.as_str(), line.level.as_str()) { Verdict::Keep } else { Verdict::Drop },
            None => Verdict::Keep,
        },
    }
}

} // verus!
