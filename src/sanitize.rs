//! The ordered chain of pattern rewrites that collapses volatile parts of a
//! message (hashes, ids, addresses, counters, amounts) into fixed
//! placeholder tokens.
use vstd::prelude::*;

use regex::Regex;

verus! {

#[verifier::external_type_specification]
#[verifier::external_body]
pub struct ExRegex(regex::Regex);

#[verifier::external_type_specification]
#[verifier::external_body]
pub struct ExRegexError(regex::Error);

/// What `Regex::replace_all` gives for a regex compiled from `pattern`, on
/// `text`, with the replacement string `replacement`.
pub uninterp spec fn regex_replace_all(
    pattern: Seq<char>,
    text: Seq<char>,
    replacement: Seq<char>,
) -> Seq<char>;

/// Relies on `regex::Regex::new`: compiles `pattern`, or fails.
#[verifier::external_body]
fn compile(pattern: &str) -> (r: Result<Regex, regex::Error>) {
    Regex::new(pattern)
}

/// Relies on `regex::Regex::replace_all`: every match of the rule's regex in
/// `text` is replaced by the rule's replacement. The rule's regex is the one
/// compiled from its pattern: `Rule::new` is the only way to build a rule.
#[verifier::external_body]
fn replace_all(rule: &Rule, text: &str) -> (r: String)
    ensures
        r@ == regex_replace_all(rule.pattern@, text@, rule.replacement@),
{
    rule.regex.replace_all(text, rule.replacement.as_str()).into_owned()
}

/// One rewrite: a pattern, its compiled regex, and the text that replaces
/// each match.
pub struct Rule {
    pattern: String,
    replacement: String,
    regex: Regex,
}

impl Rule {
    /// The pattern and the replacement, as text.
    pub closed spec fn texts(&self) -> (Seq<char>, Seq<char>) {
        (self.pattern@, self.replacement@)
    }

    /// Compiles a rule; fails when the regex crate refuses the pattern.
    pub fn new(pattern: &str, replacement: &str) -> (r: Option<Rule>)
        ensures
            r matches Some(rule) ==> rule.texts() == (pattern@, replacement@),
    {
        match compile(pattern) {
            Ok(regex) => Some(
                Rule { pattern: pattern.to_owned(), replacement: replacement.to_owned(), regex },
            ),
            Err(_) => None,
        }
    }

    /// This rule applied to `text`.
    pub fn apply(&self, text: &str) -> (r: String)
        ensures
            r@ == regex_replace_all(self.texts().0, text@, self.texts().1),
    {
        replace_all(self, text)
    }
}

/// The pattern of a rule that failed to compile, by its place in the chain.
#[derive(PartialEq, Eq, Structural, Clone, Copy, Debug)]
pub struct InvalidRule {
    pub index: usize,
}

/// The rules applied in order: the first one to the message, each later one
/// to what the one before gave.
pub open spec fn apply_rules(rules: Seq<(Seq<char>, Seq<char>)>, m: Seq<char>) -> Seq<char>
    decreases rules.len(),
{
    if rules.len() == 0 {
        m
    } else {
        let last = rules.last();
        regex_replace_all(last.0, apply_rules(rules.drop_last(), m), last.1)
    }
}

/// The pattern and replacement pairs as text.
pub open spec fn texts_view(v: Seq<(&str, &str)>) -> Seq<(Seq<char>, Seq<char>)> {
    v.map_values(|p: (&str, &str)| (p.0@, p.1@))
}

/// A compiled chain of rules, built once and read by every sanitization.
pub struct RuleSet {
    rules: Vec<Rule>,
}

impl View for RuleSet {
    type V = Seq<(Seq<char>, Seq<char>)>;

    closed spec fn view(&self) -> Seq<(Seq<char>, Seq<char>)> {
        self.rules@.map_values(|r: Rule| r.texts())
    }
}

impl RuleSet {
    /// Compiles the pairs of pattern and replacement, in order. Whether a
    /// pattern compiles is up to the regex crate; an empty list always
    /// gives an empty chain.
    pub fn compile(texts: &Vec<(&str, &str)>) -> (r: Result<RuleSet, InvalidRule>)
        ensures
            texts@.len() == 0 ==> r is Ok,
            r matches Ok(set) ==> set@ == texts_view(texts@),
            r matches Err(e) ==> e.index < texts@.len(),
    {
        let mut compiled: Vec<Option<Rule>> = Vec::new();
        let mut i: usize = 0;
        while i < texts.len()
            invariant
                i <= texts@.len(),
                compiled@.len() == i,
                forall|k: int|
                    0 <= k < i ==> (#[trigger] compiled@[k] matches Some(rule) ==> rule.texts() == (
                        texts@[k].0@,
                        texts@[k].1@,
                    )),
            decreases texts@.len() - i,
        {
            let (p, t) = texts[i];
            compiled.push(Rule::new(p, t));
            i = i + 1;
        }
        let r = RuleSet::from_rules(compiled);
        proof {
            if r is Ok {
                assert(r->Ok_0@ =~= texts_view(texts@));
            }
        }
        r
    }

    /// A chain from compiled rules, in order: `Ok` when every rule
    /// compiled, else the index of the first that did not.
    pub fn from_rules(rules: Vec<Option<Rule>>) -> (r: Result<RuleSet, InvalidRule>)
        ensures
            r is Ok <==> forall|k: int| 0 <= k < rules@.len() ==> #[trigger] rules@[k] is Some,
            r matches Ok(set) ==> set@ == rules@.map_values(|o: Option<Rule>| o->Some_0.texts()),
            r matches Err(e) ==> {
                &&& e.index < rules@.len()
                &&& rules@[e.index as int] is None
                &&& forall|k: int| 0 <= k < e.index ==> #[trigger] rules@[k] is Some
            },
    {
        let ghost orig = rules@;
        let mut pending = rules;
        let mut out: Vec<Rule> = Vec::new();
        let mut i: usize = 0;
        while i < pending.len()
            invariant
                i <= pending@.len() == orig.len(),
                orig == rules@,
                out@.len() == i,
                forall|k: int| i <= k < orig.len() ==> #[trigger] pending@[k] == orig[k],
                pending@.len() == orig.len(),
                forall|k: int|
                    0 <= k < i ==> (#[trigger] orig[k]) is Some && out@[k] == orig[k]->Some_0,
            decreases orig.len() - i,
        {
            let mut slot: Option<Rule> = None;
            core::mem::swap(&mut slot, &mut pending[i]);
            assert(slot == orig[i as int]);
            match slot {
                Some(rule) => out.push(rule),
                None => {
                    assert(orig[i as int] is None);
                    return Err(InvalidRule { index: i });
                },
            }
            i = i + 1;
        }
        let set = RuleSet { rules: out };
        assert(set@ =~= orig.map_values(|o: Option<Rule>| o->Some_0.texts()));
        Ok(set)
    }

    /// The standard chain of rules, compiled.
    pub fn standard() -> (r: Result<RuleSet, InvalidRule>)
        ensures
            r matches Ok(set) ==> set@ == standard_rules(),
            r matches Err(e) ==> e.index < standard_rules().len(),
    {
        let texts = standard_rule_texts();
        RuleSet::compile(&texts)
    }
}

/// `msg` with every rule of `rules` applied in order.
pub fn sanitize_message(rules: &RuleSet, msg: &str) -> (r: String)
    ensures
        r@ == apply_rules(rules@, msg@),
{
    let mut cur = msg.to_owned();
    let mut i: usize = 0;
    assert(rules@.subrange(0, 0) =~= Seq::<(Seq<char>, Seq<char>)>::empty());
    while i < rules.rules.len()
        invariant
            i <= rules.rules@.len(),
            rules@.len() == rules.rules@.len(),
            cur@ == apply_rules(rules@.subrange(0, i as int), msg@),
        decreases rules.rules@.len() - i,
    {
        let next = rules.rules[i].apply(cur.as_str());
        assert(rules@.subrange(0, i + 1).drop_last() =~= rules@.subrange(0, i as int));
        cur = next;
        i = i + 1;
    }
    assert(rules@.subrange(0, rules@.len() as int) =~= rules@);
    cur
}

/// The standard rules, in the order in which they apply. Later rules rely on
/// the placeholders that earlier ones leave.
pub open spec fn standard_rules() -> Seq<(Seq<char>, Seq<char>)> {
    seq![
        (r"[0-9A-F]{64}"@, "#some-base-16-hash"@),
        (r"[A-Za-z0-9]{52}"@, "#some-id"@),
        (r"(\d{1,3}\.){3}\d{1,3}(:\d{1,5})?"@, "#some-ip"@),
        (r"#\d+"@, "#some-num"@),
        (r"\d+(\.\d+)?/[A-Z]{3}"@, "#amount/#currency"@),
        (r"Peer [0-9A-F]+ votes"@, "Peer #some-peer-node votes"@),
        (r"Peer [0-9A-F]+ now"@, "Peer #some-peer-node now"@),
        (r"[0-9A-F]+ has"@, "#some-peer-node has"@),
        (r"votes \w+ on"@, "votes #some-vote on"@),
        (r"weight -?\d{1,2}"@, "#some-weight"@),
        (r"percent \d{1,3}"@, "#some-percent"@),
        (r"\d{1,3} time votes"@, "#some-votes time votes"@),
        (r"\d{1,3} participants"@, "#some-participants"@),
        (r": \d+ <="@, ": #some-ledger-id <="@),
        (r"<= \d+"@, "<= #some-ledger-id"@),
        (r"\d+ with >= \d+"@, "#some-ledger-id >= #validations"@),
        (r"\{.+close_time_human.+\}"@, "LEDGER_STATUS_JSON_LOG"@),
        (r"Proposers:\d{1,3}"@, "Proposers:#some-proposers"@),
        (r"nw:\d{1,3}"@, "#some-needweight"@),
        (r"thrV:\d{1,3}"@, "#some-thresh-vote"@),
        (r"thrC:\d{1,3}"@, "#some-thresh-consensus"@),
        (r"is estimated at -?\d \(\d{1,3}\)"@, "is estimated at #some-offset (#some-closecount)"@),
        (r"\d+ nodes"@, "#num nodes"@),
        (r"\[\d+\]"@, ""@),
        (r"seq=\d+"@, "seq=#"@),
        (r"\d+ timeouts for ledger \d+"@, "# timeouts for ledger #some-ledger-id"@),
        (r"Missing node in \d+"@, "Missing node in #some-ledger-id"@),
        (r"\d+ tasks"@, "#some-tasks tasks"@),
        (r"\d+ jobs"@, "#some-jobs jobs"@),
        (r"\d+ items"@, "#some-items items"@),
        (r"\d+  of \d+ listed"@, "#some of #some listed"@),
        (r"\d+ of"@, "#some of"@),
        (r"of \d+ for"@, "of #some for"@),
        (r"\d+:#some-id"@, "#some:#some-id"@),
        (r"\d+ trusted"@, "#some trusted"@),
        (r"\d+ added"@, "#some added"@),
        (r"\d+ removed"@, "#some removed"@),
        (r"good:\d+"@, "good:#some-good-num"@),
        (r"dupe:\d+"@, "dupe:#some-dupe-num"@),
        (r"src=\d+"@, "src=#some-src-num"@),
        (r"from \d+"@, "from #some_number"@),
        (r"n=\d+"@, "n=#some-num"@),
        (r"\d+ transactions?"@, "#some transactions"@),
        (r"\d+ changes"@, "#some changes"@),
        (r"\d+ and"@, "#some and"@),
        (r"\d+ begins"@, "#some begins"@),
        (r"\d+ completed"@, "#some completed"@),
        (r"\d+ accounts?"@, "#some accounts"@),
        (r"is \d+$"@, "is #some"@),
        (r"to \d+$"@, "to #some"@),
        (r"#some-base-16-hash:\d+"@, "#some-base-16-hash:#some"@),
        (r"\{.+branchSupport.+}"@, "#some-branch-support-object"@),
        (r"agree=\d+, disagree=\d+$"@, "agree=#some, disagree=#some"@),
        (r"\(working seq.+quorum: \d+\)"@, "(#truncated)"@),
        (r"Prop=.+fail=[a-z]{2,3}$"@, "Prop=#some val=#some corLCL=#some fail=#some"@),
        (r"progress\(\d+\)"@, "progress(#some)"@),
        (r"Timeout\(\d+\) pc=\d+ acquiring"@, "Timeout(#some) pc=#some acquiring"@),
        (r"held: -*\d+$"@, "held: #some"@),
        (r"Balance: \d+(\.\d+)?/[A-Z]{3}$"@, "Balance: #some-value/#currency"@),
        (r"Offer out: \d+(\.\d+)?/[A-Z]{3}( \(issuer: r[A-Za-z0-9]{24,34}\))?$"@, "Offer out: #some-value/#currency"@),
        (r"Offer in: \d+(\.\d+)?/[A-Z]{3}( \(issuer: r[A-Za-z0-9]{24,34}\))?$"@, "Offer in: #some-value/#currency"@),
        (r"Crossing as: r[A-Za-z0-9]{25,35}$"@, "Crossing as: #some-id"@),
        (r"Attempting cross: r[A-Za-z0-9]{24,34}/[A-Z]{3} -> [A-Z]{3}$"@, "Attempting cross: #some-account/#currency -> #currency"@),
        (r"Attempting cross: [A-Z]{3} -> r[A-Za-z0-9]{24,34}/[A-Z]{3}$"@, "Attempting cross: #currency -> #some-account/#currency"@),
        (r"Attempting cross: r[A-Za-z0-9]{24,34}/[A-Z]{3} -> r[A-Za-z0-9]{24,34}/[A-Z]{3}$"@, "Attempting cross: #some-account/#currency -> #some-account/#currency"@),
        (r"order \d+$"@, "order #some-value"@),
        (r"has \d+, \d+ required$"@, "has #some, #some required"@),
        (r"seq \d+:?"@, "seq #some:"@),
        (r"\{.+nays.+}"@, "{truncated}"@),
        (r"\d+ differences"@, "#some differences"@),
        (r"success \d+"@, "success #some"@),
        (r"\d+ processed"@, "#some processed"@),
        (r"r[a-zA-Z0-9]{25,35}"@, "#some-account"@),
        (r"Ledger \d+"@, "Ledger #some"@),
        (r"complete \d+"@, "complete #some-num"@),
        (r"(?:[^\d])\d{9}(?:[^\d]|$)"@, "#some-ledger-close-time"@),
        (r"pack for \d+"@, "pack for #some-obj"@),
        (r"\d+ out of \d+"@, "#some out of #some"@),
        (r"\d+ books found"@, "#some books found"@),
        (r"timeouts:\d+"@, "timeouts:#some"@),
        (r"Status other than -?\d+"@, "Status other than #some"@),
        (r"Thresh:\d+"@, "Thresh:#some"@),
        (r"save for \d+"@, "pack for #some"@),
        (r"\{.+acquired.+}"@, "{truncated}"@),
        (r"\d+ failed and \d+"@, "#some failed and #some"@),
        (r"Node count \(\d+\)"@, "Node count (#some)"@),
    ]
}

/// The texts of the standard rules.
pub fn standard_rule_texts() -> (r: Vec<(&'static str, &'static str)>)
    ensures
        texts_view(r@) == standard_rules(),
{
    let mut v: Vec<(&'static str, &'static str)> = Vec::new();
    v.push((r"[0-9A-F]{64}", "#some-base-16-hash"));
    v.push((r"[A-Za-z0-9]{52}", "#some-id"));
    v.push((r"(\d{1,3}\.){3}\d{1,3}(:\d{1,5})?", "#some-ip"));
    v.push((r"#\d+", "#some-num"));
    v.push((r"\d+(\.\d+)?/[A-Z]{3}", "#amount/#currency"));
    v.push((r"Peer [0-9A-F]+ votes", "Peer #some-peer-node votes"));
    v.push((r"Peer [0-9A-F]+ now", "Peer #some-peer-node now"));
    v.push((r"[0-9A-F]+ has", "#some-peer-node has"));
    v.push((r"votes \w+ on", "votes #some-vote on"));
    v.push((r"weight -?\d{1,2}", "#some-weight"));
    v.push((r"percent \d{1,3}", "#some-percent"));
    v.push((r"\d{1,3} time votes", "#some-votes time votes"));
    v.push((r"\d{1,3} participants", "#some-participants"));
    v.push((r": \d+ <=", ": #some-ledger-id <="));
    v.push((r"<= \d+", "<= #some-ledger-id"));
    v.push((r"\d+ with >= \d+", "#some-ledger-id >= #validations"));
    v.push((r"\{.+close_time_human.+\}", "LEDGER_STATUS_JSON_LOG"));
    v.push((r"Proposers:\d{1,3}", "Proposers:#some-proposers"));
    v.push((r"nw:\d{1,3}", "#some-needweight"));
    v.push((r"thrV:\d{1,3}", "#some-thresh-vote"));
    v.push((r"thrC:\d{1,3}", "#some-thresh-consensus"));
    v.push((r"is estimated at -?\d \(\d{1,3}\)", "is estimated at #some-offset (#some-closecount)"));
    v.push((r"\d+ nodes", "#num nodes"));
    v.push((r"\[\d+\]", ""));
    v.push((r"seq=\d+", "seq=#"));
    v.push((r"\d+ timeouts for ledger \d+", "# timeouts for ledger #some-ledger-id"));
    v.push((r"Missing node in \d+", "Missing node in #some-ledger-id"));
    v.push((r"\d+ tasks", "#some-tasks tasks"));
    v.push((r"\d+ jobs", "#some-jobs jobs"));
    v.push((r"\d+ items", "#some-items items"));
    v.push((r"\d+  of \d+ listed", "#some of #some listed"));
    v.push((r"\d+ of", "#some of"));
    v.push((r"of \d+ for", "of #some for"));
    v.push((r"\d+:#some-id", "#some:#some-id"));
    v.push((r"\d+ trusted", "#some trusted"));
    v.push((r"\d+ added", "#some added"));
    v.push((r"\d+ removed", "#some removed"));
    v.push((r"good:\d+", "good:#some-good-num"));
    v.push((r"dupe:\d+", "dupe:#some-dupe-num"));
    v.push((r"src=\d+", "src=#some-src-num"));
    v.push((r"from \d+", "from #some_number"));
    v.push((r"n=\d+", "n=#some-num"));
    v.push((r"\d+ transactions?", "#some transactions"));
    v.push((r"\d+ changes", "#some changes"));
    v.push((r"\d+ and", "#some and"));
    v.push((r"\d+ begins", "#some begins"));
    v.push((r"\d+ completed", "#some completed"));
    v.push((r"\d+ accounts?", "#some accounts"));
    v.push((r"is \d+$", "is #some"));
    v.push((r"to \d+$", "to #some"));
    v.push((r"#some-base-16-hash:\d+", "#some-base-16-hash:#some"));
    v.push((r"\{.+branchSupport.+}", "#some-branch-support-object"));
    v.push((r"agree=\d+, disagree=\d+$", "agree=#some, disagree=#some"));
    v.push((r"\(working seq.+quorum: \d+\)", "(#truncated)"));
    v.push((r"Prop=.+fail=[a-z]{2,3}$", "Prop=#some val=#some corLCL=#some fail=#some"));
    v.push((r"progress\(\d+\)", "progress(#some)"));
    v.push((r"Timeout\(\d+\) pc=\d+ acquiring", "Timeout(#some) pc=#some acquiring"));
    v.push((r"held: -*\d+$", "held: #some"));
    v.push((r"Balance: \d+(\.\d+)?/[A-Z]{3}$", "Balance: #some-value/#currency"));
    v.push((r"Offer out: \d+(\.\d+)?/[A-Z]{3}( \(issuer: r[A-Za-z0-9]{24,34}\))?$", "Offer out: #some-value/#currency"));
    v.push((r"Offer in: \d+(\.\d+)?/[A-Z]{3}( \(issuer: r[A-Za-z0-9]{24,34}\))?$", "Offer in: #some-value/#currency"));
    v.push((r"Crossing as: r[A-Za-z0-9]{25,35}$", "Crossing as: #some-id"));
    v.push((r"Attempting cross: r[A-Za-z0-9]{24,34}/[A-Z]{3} -> [A-Z]{3}$", "Attempting cross: #some-account/#currency -> #currency"));
    v.push((r"Attempting cross: [A-Z]{3} -> r[A-Za-z0-9]{24,34}/[A-Z]{3}$", "Attempting cross: #currency -> #some-account/#currency"));
    v.push((r"Attempting cross: r[A-Za-z0-9]{24,34}/[A-Z]{3} -> r[A-Za-z0-9]{24,34}/[A-Z]{3}$", "Attempting cross: #some-account/#currency -> #some-account/#currency"));
    v.push((r"order \d+$", "order #some-value"));
    v.push((r"has \d+, \d+ required$", "has #some, #some required"));
    v.push((r"seq \d+:?", "seq #some:"));
    v.push((r"\{.+nays.+}", "{truncated}"));
    v.push((r"\d+ differences", "#some differences"));
    v.push((r"success \d+", "success #some"));
    v.push((r"\d+ processed", "#some processed"));
    v.push((r"r[a-zA-Z0-9]{25,35}", "#some-account"));
    v.push((r"Ledger \d+", "Ledger #some"));
    v.push((r"complete \d+", "complete #some-num"));
    v.push((r"(?:[^\d])\d{9}(?:[^\d]|$)", "#some-ledger-close-time"));
    v.push((r"pack for \d+", "pack for #some-obj"));
    v.push((r"\d+ out of \d+", "#some out of #some"));
    v.push((r"\d+ books found", "#some books found"));
    v.push((r"timeouts:\d+", "timeouts:#some"));
    v.push((r"Status other than -?\d+", "Status other than #some"));
    v.push((r"Thresh:\d+", "Thresh:#some"));
    v.push((r"save for \d+", "pack for #some"));
    v.push((r"\{.+acquired.+}", "{truncated}"));
    v.push((r"\d+ failed and \d+", "#some failed and #some"));
    v.push((r"Node count \(\d+\)", "Node count (#some)"));
    assert(texts_view(v@) =~= standard_rules());
    v
}

} // verus!
