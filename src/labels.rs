//! The table that gives each canonical message its short symbolic label.
use vstd::prelude::*;

use crate::text::{chars_of, trim, trimmed};

verus! {

/// The index of the first space at or after `i`, or the length of `s`.
pub open spec fn space_index(s: Seq<char>, i: nat) -> nat
    decreases s.len() - i,
{
    if i < s.len() && s[i as int] != ' ' {
        space_index(s, i + 1)
    } else {
        i
    }
}

/// The text under which a canonical message is looked up: what follows its
/// first space (its `component:level` prefix stripped), trimmed. A message
/// without a space has no such prefix, and no key.
pub open spec fn label_key(s: Seq<char>) -> Option<Seq<char>> {
    let i = space_index(s, 0);
    if i < s.len() {
        Some(trim(s.subrange((i + 1) as int, s.len() as int)))
    } else {
        None
    }
}

/// The label of a canonical message in `entries`; `None` when it has no key
/// or no entry has its key.
pub open spec fn label_of(entries: Seq<(Seq<char>, Seq<char>)>, s: Seq<char>) -> Option<Seq<char>> {
    match label_key(s) {
        Some(k) => lookup_label(entries, k),
        None => None,
    }
}

/// The label of the first entry whose text is `key`.
pub open spec fn lookup_label(entries: Seq<(Seq<char>, Seq<char>)>, key: Seq<char>) -> Option<
    Seq<char>,
>
    decreases entries.len(),
{
    if entries.len() == 0 {
        None
    } else if entries[0].0 == key {
        Some(entries[0].1)
    } else {
        lookup_label(entries.drop_first(), key)
    }
}

/// The lookup key of a canonical message, if it has one.
pub fn key_of(s: &str) -> (r: Option<String>)
    ensures
        label_view(r) == label_key(s@),
{
    let c = chars_of(s);
    let mut i: usize = 0;
    while i < c.len() && c[i] != ' '
        invariant
            i <= c@.len(),
            c@ == s@,
            space_index(s@, 0) == space_index(s@, i as nat),
        decreases c@.len() - i,
    {
        i = i + 1;
    }
    if i < c.len() {
        let rest = s.substring_char(i + 1, c.len());
        Some(trimmed(rest))
    } else {
        None
    }
}

/// A read-only table from message text to label.
pub struct LabelTable {
    entries: Vec<(String, String)>,
}

impl View for LabelTable {
    type V = Seq<(Seq<char>, Seq<char>)>;

    closed spec fn view(&self) -> Seq<(Seq<char>, Seq<char>)> {
        self.entries@.map_values(|e: (String, String)| (e.0@, e.1@))
    }
}

/// The option of a label as text.
pub open spec fn label_view(l: Option<String>) -> Option<Seq<char>> {
    match l {
        Some(s) => Some(s@),
        None => None,
    }
}

impl LabelTable {
    /// A table holding the given pairs of text and label, in order.
    pub fn from_pairs(pairs: &Vec<(&str, &str)>) -> (r: LabelTable)
        ensures
            r@ == pairs_view(pairs@),
    {
        let mut entries: Vec<(String, String)> = Vec::new();
        let mut i: usize = 0;
        while i < pairs.len()
            invariant
                i <= pairs@.len(),
                entries@.len() == i,
                forall|k: int|
                    0 <= k < i ==> (#[trigger] entries@[k]).0@ == pairs@[k].0@ && entries@[k].1@
                        == pairs@[k].1@,
            decreases pairs@.len() - i,
        {
            let (t, l) = pairs[i];
            entries.push((t.to_owned(), l.to_owned()));
            i = i + 1;
        }
        let r = LabelTable { entries };
        assert(r@ =~= pairs_view(pairs@));
        r
    }

    /// The standard table.
    pub fn standard() -> (r: LabelTable)
        ensures
            r@ == standard_labels(),
    {
        let pairs = standard_label_pairs();
        LabelTable::from_pairs(&pairs)
    }

    /// The label of the entry whose text is exactly `key`.
    pub fn lookup(&self, key: &String) -> (r: Option<String>)
        ensures
            label_view(r) == lookup_label(self@, key@),
    {
        let mut i: usize = 0;
        assert(self@.subrange(0, self@.len() as int) =~= self@);
        while i < self.entries.len()
            invariant
                i <= self.entries@.len(),
                lookup_label(self@, key@) == lookup_label(self@.subrange(i as int, self@.len() as int), key@),
            decreases self.entries@.len() - i,
        {
            let ghost rest = self@.subrange(i as int, self@.len() as int);
            assert(rest.drop_first() =~= self@.subrange(i + 1, self@.len() as int));
            if self.entries[i].0 == *key {
                return Some(self.entries[i].1.clone());
            }
            i = i + 1;
        }
        None
    }

    /// The label of a canonical message: its prefix is stripped before the
    /// lookup. `None` when the message has no prefix or the table has no
    /// entry for it.
    pub fn map_log(&self, message: &str) -> (r: Option<String>)
        ensures
            label_view(r) == label_of(self@, message@),
    {
        match key_of(message) {
            Some(key) => self.lookup(&key),
            None => None,
        }
    }
}

/// The standard table: each message shape that the traces name, with its
/// label.
pub open spec fn standard_labels() -> Seq<(Seq<char>, Seq<char>)> {
    labels_first() + labels_second() + labels_third() + labels_fourth() + labels_fifth()
}

/// The view of pairs of text and label.
pub open spec fn pairs_view(v: Seq<(&str, &str)>) -> Seq<(Seq<char>, Seq<char>)> {
    v.map_values(|p: (&str, &str)| (p.0@, p.1@))
}

/// Entries of the standard table, first part.
pub open spec fn labels_first() -> Seq<(Seq<char>, Seq<char>)> {
    seq![
        ("Entering consensus process, watching, synced=no"@, "enterConsensusWatch"@),
        ("Entering consensus process, validating, synced=no"@, "enterConsensusValidating"@),
        ("View of consensus changed during open status=open,  mode=wrongLedger"@, "viewChangeOpenToWrongLedger"@),
        ("View of consensus changed during open status=open,  mode=proposing"@, "viewChangeOpenToProposing"@),
        ("View of consensus changed during establish status=establish,  mode=proposing"@, "viewChangeEstablishProposing"@),
        ("Consensus mode change before=observing, after=switchedLedger"@, "modeObservingToSwitchedLedger"@),
        ("Consensus mode change before=switchedLedger, after=proposing"@, "modeSwitchedLedgerToProposing"@),
        ("Consensus mode change before=proposing, after=observing"@, "modeProposingToObserving"@),
        ("Consensus mode change before=observing, after=wrongLedger"@, "modeObservingToWrongLedger"@),
        ("Consensus mode change before=observing, after=observing"@, "modeObservingToObserving"@),
        ("Consensus mode change before=wrongLedger, after=proposing"@, "modeWrongledgerToProposing"@),
        ("Consensus mode change before=proposing, after=proposing"@, "modeProposingToProposing"@),
        ("Consensus mode change before=wrongLedger, after=wrongLedger"@, "modeWrongledgerToWrongledger"@),
        ("Converge cutoff (#some-participants)"@, "convergeCutoff"@),
        ("CNF buildLCL #some-base-16-hash"@, "buildLCL"@),
        ("We closed at#some-ledger-close-time"@, "ClosedAt"@),
        ("Our close offset is estimated at #some-offset (#some-closecount)"@, "closeOffset"@),
        ("Need consensus ledger #some-base-16-hash"@, "needConsensus"@),
        ("Entering consensus with: #some-base-16-hash"@, "enterConsensus"@),
        ("Correct LCL is: #some-base-16-hash"@, "correctLCL"@),
        ("LEDGER_STATUS_JSON_LOG"@, "jsonStatus"@),
        ("#some-base-16-hash to #some-base-16-hash"@, "hashTohash"@),
        ("Entering consensus process, validating, synced=yes"@, "enterConsensus"@),
        ("CNF Val #some-base-16-hash"@, "cnfSomething"@),
        ("Proposers:#some-proposers #some-needweight #some-thresh-vote #some-thresh-consensus"@, "proposersWeightThresholdLog"@),
        ("No change (NO) : #some-weight, #some-percent"@, "noChangeNo"@),
        ("No change (YES) : #some-weight, #some-percent"@, "noChangeYes"@),
        ("Position change: CTime#some-ledger-close-time tx #some-base-16-hash"@, "positionChange"@),
        ("#some-votes time votes for#some-ledger-close-time"@, "votesForClosetime"@),
        ("By the time we got #some-base-16-hash no peers were proposing it"@, "noPeersHashPropose"@),
        ("Consensus built old ledger: #some-ledger-id <= #some-ledger-id"@, "buildOldLedger"@),
        ("Bowing out of consensus"@, "consensusBowOut"@),
        ("Have the consensus ledger #some-base-16-hash"@, "haveConsensusLedger"@),
        ("We have TX consensus but not CT consensus"@, "haveTXNotCTConsensus"@),
        ("Advancing accepted ledger to #some-ledger-id >= #validations validations"@, "advancingLedger"@),
        ("Consensus time for #some-num with LCL #some-base-16-hash"@, "consensusTimeWithLCL"@),
        ("Transaction is obsolete"@, "transactionObsolete"@),
        ("GetLedger: Route TX set failed"@, "routeTXSetFailed"@),
        ("Not relaying trusted proposal"@, "notRelayProposal"@),
        ("Got request for #num nodes at depth 3, return #num nodes"@, "gotRequest3Nodes"@),
        ("Got request for #num nodes at depth 2, return #num nodes"@, "gotRequest2Nodes"@),
        ("Got request for #num nodes at depth 1, return #num nodes"@, "gotRequest1Nodes"@),
        ("Got request for #num nodes at depth 0, return #num nodes"@, "gotRequest0Nodes"@),
        ("Duplicate manifest #some-num"@, "duplicateManifest"@),
        ("Untrusted manifest #some-num"@, "untristedManifest"@),
    ]
}

fn push_labels_first(v: &mut Vec<(&'static str, &'static str)>)
    ensures
        pairs_view(final(v)@) == pairs_view(old(v)@) + labels_first(),
{
    v.push(("Entering consensus process, watching, synced=no", "enterConsensusWatch"));
    v.push(("Entering consensus process, validating, synced=no", "enterConsensusValidating"));
    v.push(("View of consensus changed during open status=open,  mode=wrongLedger", "viewChangeOpenToWrongLedger"));
    v.push(("View of consensus changed during open status=open,  mode=proposing", "viewChangeOpenToProposing"));
    v.push(("View of consensus changed during establish status=establish,  mode=proposing", "viewChangeEstablishProposing"));
    v.push(("Consensus mode change before=observing, after=switchedLedger", "modeObservingToSwitchedLedger"));
    v.push(("Consensus mode change before=switchedLedger, after=proposing", "modeSwitchedLedgerToProposing"));
    v.push(("Consensus mode change before=proposing, after=observing", "modeProposingToObserving"));
    v.push(("Consensus mode change before=observing, after=wrongLedger", "modeObservingToWrongLedger"));
    v.push(("Consensus mode change before=observing, after=observing", "modeObservingToObserving"));
    v.push(("Consensus mode change before=wrongLedger, after=proposing", "modeWrongledgerToProposing"));
    v.push(("Consensus mode change before=proposing, after=proposing", "modeProposingToProposing"));
    v.push(("Consensus mode change before=wrongLedger, after=wrongLedger", "modeWrongledgerToWrongledger"));
    v.push(("Converge cutoff (#some-participants)", "convergeCutoff"));
    v.push(("CNF buildLCL #some-base-16-hash", "buildLCL"));
    v.push(("We closed at#some-ledger-close-time", "ClosedAt"));
    v.push(("Our close offset is estimated at #some-offset (#some-closecount)", "closeOffset"));
    v.push(("Need consensus ledger #some-base-16-hash", "needConsensus"));
    v.push(("Entering consensus with: #some-base-16-hash", "enterConsensus"));
    v.push(("Correct LCL is: #some-base-16-hash", "correctLCL"));
    v.push(("LEDGER_STATUS_JSON_LOG", "jsonStatus"));
    v.push(("#some-base-16-hash to #some-base-16-hash", "hashTohash"));
    v.push(("Entering consensus process, validating, synced=yes", "enterConsensus"));
    v.push(("CNF Val #some-base-16-hash", "cnfSomething"));
    v.push(("Proposers:#some-proposers #some-needweight #some-thresh-vote #some-thresh-consensus", "proposersWeightThresholdLog"));
    v.push(("No change (NO) : #some-weight, #some-percent", "noChangeNo"));
    v.push(("No change (YES) : #some-weight, #some-percent", "noChangeYes"));
    v.push(("Position change: CTime#some-ledger-close-time tx #some-base-16-hash", "positionChange"));
    v.push(("#some-votes time votes for#some-ledger-close-time", "votesForClosetime"));
    v.push(("By the time we got #some-base-16-hash no peers were proposing it", "noPeersHashPropose"));
    v.push(("Consensus built old ledger: #some-ledger-id <= #some-ledger-id", "buildOldLedger"));
    v.push(("Bowing out of consensus", "consensusBowOut"));
    v.push(("Have the consensus ledger #some-base-16-hash", "haveConsensusLedger"));
    v.push(("We have TX consensus but not CT consensus", "haveTXNotCTConsensus"));
    v.push(("Advancing accepted ledger to #some-ledger-id >= #validations validations", "advancingLedger"));
    v.push(("Consensus time for #some-num with LCL #some-base-16-hash", "consensusTimeWithLCL"));
    v.push(("Transaction is obsolete", "transactionObsolete"));
    v.push(("GetLedger: Route TX set failed", "routeTXSetFailed"));
    v.push(("Not relaying trusted proposal", "notRelayProposal"));
    v.push(("Got request for #num nodes at depth 3, return #num nodes", "gotRequest3Nodes"));
    v.push(("Got request for #num nodes at depth 2, return #num nodes", "gotRequest2Nodes"));
    v.push(("Got request for #num nodes at depth 1, return #num nodes", "gotRequest1Nodes"));
    v.push(("Got request for #num nodes at depth 0, return #num nodes", "gotRequest0Nodes"));
    v.push(("Duplicate manifest #some-num", "duplicateManifest"));
    v.push(("Untrusted manifest #some-num", "untristedManifest"));
    assert(pairs_view(final(v)@) =~= pairs_view(old(v)@) + labels_first());
}

/// Entries of the standard table, second part.
pub open spec fn labels_second() -> Seq<(Seq<char>, Seq<char>)> {
    seq![
        ("Want: #some-base-16-hash"@, "wantHash"@),
        ("# timeouts for ledger #some-ledger-id"@, "timeoutForLedgerID"@),
        ("Unable to determine hash of ancestor seq=# from ledger hash=#some-base-16-hash seq=#"@, "unableHashLedgerAncestor"@),
        ("Ledger/TXset data with no nodes"@, "ledgerOrTXNoNodes"@),
        ("STATE->full"@, "stateFull"@),
        ("STATE->tracking"@, "stateTracking"@),
        ("STATE->syncing"@, "stateSyncing"@),
        ("STATE->connected"@, "stateConnected"@),
        ("Net LCL #some-base-16-hash"@, "netLCL"@),
        ("Our LCL:"@, "ourLCL"@),
        ("LCL is #some-base-16-hash"@, "lclIs"@),
        ("Built fetch pack with #num nodes"@, "builtFetchPack"@),
        ("Bad manifest #some-num: stale"@, "badManifestStale"@),
        ("Unable to route TX/ledger data reply"@, "unableRouteTXOrLedgerReply"@),
        ("Initiating consensus engine"@, "initiateConsensusEngine"@),
        ("Node count (2) is sufficient."@, "nodeCountSufficient"@),
        ("We are not running on the consensus ledger"@, "notOnConsensusLedger"@),
        ("time jump"@, "timeJump"@),
        ("getNodeFat( NodeID(3,#some-base-16-hash)) throws exception: AS node"@, "getNodeFat"@),
        ("getNodeFat( NodeID(5,#some-base-16-hash)) throws exception: AS node"@, "getNodeFat"@),
        ("Missing node in #some-ledger-id"@, "missingNodeInLedgerID"@),
        ("Missing node in #some-base-16-hash"@, "missingNodeInHash"@),
        ("TimeKeeper: Close time offset now -1"@, "closeTimeOffset"@),
        ("Not relaying UNTRUSTED proposal"@, "notReplayingUntrustedProposal"@),
        ("Ignoring incoming transaction: Need network ledger"@, "ignoringIncomingNeedNetwork"@),
        ("Got proposal for #some-base-16-hash but we are on #some-base-16-hash"@, "gotProposalButAreOn"@),
        ("normal consensus"@, "normalConsensus"@),
        ("Ledger not found: WHERE LedgerHash = '#some-base-16-hash'"@, "ledgerNotFound"@),
        ("Need validated ledger for preferred ledger analysis #some-base-16-hash"@, "needValidatedLedger"@),
        ("No validated ledger"@, "noValidatedLedger"@),
        ("Deferring InboundLedger timer due to load"@, "deferringLedgerDueToLoad"@),
        ("GetLedger: Routing Tx set request"@, "getLedgerRoutingTxSet"@),
        ("Starting"@, "starting"@),
        ("Started"@, "started"@),
        ("Initializing"@, "initializing"@),
        ("Ledger AS node stats: good:#some-good-num"@, "ledgerAsNodeStatsGood"@),
        ("Ledger AS node stats: dupe:#some-dupe-num"@, "ledgerAsNodeStatsDupe"@),
        ("Ledger AS node stats: good:#some-good-num dupe:#some-dupe-num"@, "ledgerAsNodeStatsGoodDupe"@),
        ("Val for #some-base-16-hash trusted/full from #some-id signing key #some-id current src=#some-src-num"@, "valHashTrustedFullCurrent"@),
        ("recvValidation #some-base-16-hash from #some_number"@, "recvValidation"@),
        ("Val for #some-base-16-hash from #some-id not added UNlisted"@, "valHashNotAddedUNlisted"@),
        ("GetLedger: Can't provide map"@, "getLedgerCantProvideMap"@),
        ("#some of #some listed validators eligible for inclusion in the trusted set"@, "numValidatorsInclusionTrustset"@),
        ("Consensus built new ledger"@, "consensusBuiltNewLedger"@),
        ("Built ledger #some-num: #some-base-16-hash"@, "buildLedger"@),
    ]
}

fn push_labels_second(v: &mut Vec<(&'static str, &'static str)>)
    ensures
        pairs_view(final(v)@) == pairs_view(old(v)@) + labels_second(),
{
    v.push(("Want: #some-base-16-hash", "wantHash"));
    v.push(("# timeouts for ledger #some-ledger-id", "timeoutForLedgerID"));
    v.push(("Unable to determine hash of ancestor seq=# from ledger hash=#some-base-16-hash seq=#", "unableHashLedgerAncestor"));
    v.push(("Ledger/TXset data with no nodes", "ledgerOrTXNoNodes"));
    v.push(("STATE->full", "stateFull"));
    v.push(("STATE->tracking", "stateTracking"));
    v.push(("STATE->syncing", "stateSyncing"));
    v.push(("STATE->connected", "stateConnected"));
    v.push(("Net LCL #some-base-16-hash", "netLCL"));
    v.push(("Our LCL:", "ourLCL"));
    v.push(("LCL is #some-base-16-hash", "lclIs"));
    v.push(("Built fetch pack with #num nodes", "builtFetchPack"));
    v.push(("Bad manifest #some-num: stale", "badManifestStale"));
    v.push(("Unable to route TX/ledger data reply", "unableRouteTXOrLedgerReply"));
    v.push(("Initiating consensus engine", "initiateConsensusEngine"));
    v.push(("Node count (2) is sufficient.", "nodeCountSufficient"));
    v.push(("We are not running on the consensus ledger", "notOnConsensusLedger"));
    v.push(("time jump", "timeJump"));
    v.push(("getNodeFat( NodeID(3,#some-base-16-hash)) throws exception: AS node", "getNodeFat"));
    v.push(("getNodeFat( NodeID(5,#some-base-16-hash)) throws exception: AS node", "getNodeFat"));
    v.push(("Missing node in #some-ledger-id", "missingNodeInLedgerID"));
    v.push(("Missing node in #some-base-16-hash", "missingNodeInHash"));
    v.push(("TimeKeeper: Close time offset now -1", "closeTimeOffset"));
    v.push(("Not relaying UNTRUSTED proposal", "notReplayingUntrustedProposal"));
    v.push(("Ignoring incoming transaction: Need network ledger", "ignoringIncomingNeedNetwork"));
    v.push(("Got proposal for #some-base-16-hash but we are on #some-base-16-hash", "gotProposalButAreOn"));
    v.push(("normal consensus", "normalConsensus"));
    v.push(("Ledger not found: WHERE LedgerHash = '#some-base-16-hash'", "ledgerNotFound"));
    v.push(("Need validated ledger for preferred ledger analysis #some-base-16-hash", "needValidatedLedger"));
    v.push(("No validated ledger", "noValidatedLedger"));
    v.push(("Deferring InboundLedger timer due to load", "deferringLedgerDueToLoad"));
    v.push(("GetLedger: Routing Tx set request", "getLedgerRoutingTxSet"));
    v.push(("Starting", "starting"));
    v.push(("Started", "started"));
    v.push(("Initializing", "initializing"));
    v.push(("Ledger AS node stats: good:#some-good-num", "ledgerAsNodeStatsGood"));
    v.push(("Ledger AS node stats: dupe:#some-dupe-num", "ledgerAsNodeStatsDupe"));
    v.push(("Ledger AS node stats: good:#some-good-num dupe:#some-dupe-num", "ledgerAsNodeStatsGoodDupe"));
    v.push(("Val for #some-base-16-hash trusted/full from #some-id signing key #some-id current src=#some-src-num", "valHashTrustedFullCurrent"));
    v.push(("recvValidation #some-base-16-hash from #some_number", "recvValidation"));
    v.push(("Val for #some-base-16-hash from #some-id not added UNlisted", "valHashNotAddedUNlisted"));
    v.push(("GetLedger: Can't provide map", "getLedgerCantProvideMap"));
    v.push(("#some of #some listed validators eligible for inclusion in the trusted set", "numValidatorsInclusionTrustset"));
    v.push(("Consensus built new ledger", "consensusBuiltNewLedger"));
    v.push(("Built ledger #some-num: #some-base-16-hash", "buildLedger"));
    assert(pairs_view(final(v)@) =~= pairs_view(old(v)@) + labels_second());
}

/// Entries of the standard table, third part.
pub open spec fn labels_third() -> Seq<(Seq<char>, Seq<char>)> {
    seq![
        ("Building canonical tx set: #some-base-16-hash"@, "buildingCanonicalTxSet"@),
        ("Report: Transaction Set = #some-base-16-hash, close#some-ledger-close-time"@, "reportTransactionSetClose"@),
        ("GetLedger: Request routed"@, "getLedgerRequestRouted"@),
        ("L: #some-base-16-hash n=#some-num"@, "lHashNval"@),
        ("GetLedger: Large send queue"@, "getLedgerLargeSendQueue"@),
        ("GetObject: Large send queue"@, "getObjectLargeSendQueue"@),
        ("Transaction is now included in open ledger"@, "transactionIncluded"@),
        ("Peer #some-peer-node votes votes NO on #some-base-16-hash"@, "peerVotesNo"@),
        ("Ledger TX node stats: good:#some-good-num"@, "ledgerTxNodeStatsGood"@),
        ("Got tx #some-base-16-hash"@, "gotTxHash"@),
        ("Peer #some-peer-node now votes #some-vote on #some-base-16-hash"@, "somePeerVote"@),
        ("Peer #some-peer-node votes #some-vote on #some-base-16-hash"@, "peerVotesOn"@),
        ("#some-peer-node has #some-base-16-hash"@, "peerHasHash"@),
        ("Tx: #some-base-16-hash"@, "txHash"@),
        ("TXN #some-base-16-hash/retry"@, "txnRetry"@),
        ("TXN #some-base-16-hash/final"@, "txnFinal"@),
        ("Entering RippleCalc in payment: #some-base-16-hash"@, "enteringRippleCalc"@),
        ("Transaction retry: Path could not send partial amount."@, "retryCouldNotSendPartial"@),
        ("Transaction applied: Path could not send partial amount."@, "appliedCouldNotSendPartial"@),
        ("Transaction applied: The transaction was applied. Only final in a validated ledger."@, "appliedOnlyInFinal"@),
        ("Not relaying disputed tx #some-base-16-hash"@, "noReplayDisputedTx"@),
        ("Don't have tx set for peer"@, "noTxSetForPeer"@),
        ("Test applying disputed transaction that did not get in #some-base-16-hash"@, "testApplyDisputed"@),
        ("createDisputes #some-base-16-hash to #some-base-16-hash"@, "createDisputes"@),
        ("Consensus built ledger we already had"@, "consensusBuiltLedgerWeHad"@),
        ("Transaction #some-base-16-hash is disputed"@, "transactionIsDisputed"@),
        ("Acquired TX set #some-base-16-hash"@, "acquiredTxSetHash"@),
        ("Consensus built ledger we were acquiring"@, "consensusBuiltLedgerWeAcquired"@),
        ("Taker Crossing as: #some-id"@, "takerCrossingAsId"@),
        ("Taker    Offer in: #some-value/#currency"@, "takerOfferIn"@),
        ("Taker   Offer out: #some-value/#currency"@, "takerOfferOut"@),
        ("Taker     Balance: #some-value/#currency"@, "takerOfferBalance"@),
        ("Create cancels order #some-value"@, "createCancelsOrder"@),
        ("Attempting cross: #some-account/#currency -> #currency"@, "attemptCrossCurrency"@),
        ("Attempting cross: #currency -> #some-account/#currency"@, "attemptCrossCurrency"@),
        ("Attempting cross: #some-account/#currency -> #some-account/#currency"@, "attemptCrossCurrency"@),
        ("final result: success"@, "finalResultSuccess"@),
        ("{truncated}"@, "ledgerInfoLog"@),
        ("#some differences found"@, "someDifferences"@),
        ("CCTime: seq #some: #some-peer-node has #some, #some required"@, "cctimeSeqRequired"@),
        ("Taker    Offer in:#some-ledger-close-timeXRP"@, "takerOfferInLedgerClose"@),
        ("Taker   Offer out:#some-ledger-close-timeXRP"@, "takerOfferOutLedgerClose"@),
        ("Status other than success #some"@, "statusOtherSuccess"@),
        ("We now vote YES on #some-base-16-hash"@, "nowVoteYes"@),
        ("We now vote NO on #some-base-16-hash"@, "nowVoteNo"@),
    ]
}

fn push_labels_third(v: &mut Vec<(&'static str, &'static str)>)
    ensures
        pairs_view(final(v)@) == pairs_view(old(v)@) + labels_third(),
{
    v.push(("Building canonical tx set: #some-base-16-hash", "buildingCanonicalTxSet"));
    v.push(("Report: Transaction Set = #some-base-16-hash, close#some-ledger-close-time", "reportTransactionSetClose"));
    v.push(("GetLedger: Request routed", "getLedgerRequestRouted"));
    v.push(("L: #some-base-16-hash n=#some-num", "lHashNval"));
    v.push(("GetLedger: Large send queue", "getLedgerLargeSendQueue"));
    v.push(("GetObject: Large send queue", "getObjectLargeSendQueue"));
    v.push(("Transaction is now included in open ledger", "transactionIncluded"));
    v.push(("Peer #some-peer-node votes votes NO on #some-base-16-hash", "peerVotesNo"));
    v.push(("Ledger TX node stats: good:#some-good-num", "ledgerTxNodeStatsGood"));
    v.push(("Got tx #some-base-16-hash", "gotTxHash"));
    v.push(("Peer #some-peer-node now votes #some-vote on #some-base-16-hash", "somePeerVote"));
    v.push(("Peer #some-peer-node votes #some-vote on #some-base-16-hash", "peerVotesOn"));
    v.push(("#some-peer-node has #some-base-16-hash", "peerHasHash"));
    v.push(("Tx: #some-base-16-hash", "txHash"));
    v.push(("TXN #some-base-16-hash/retry", "txnRetry"));
    v.push(("TXN #some-base-16-hash/final", "txnFinal"));
    v.push(("Entering RippleCalc in payment: #some-base-16-hash", "enteringRippleCalc"));
    v.push(("Transaction retry: Path could not send partial amount.", "retryCouldNotSendPartial"));
    v.push(("Transaction applied: Path could not send partial amount.", "appliedCouldNotSendPartial"));
    v.push(("Transaction applied: The transaction was applied. Only final in a validated ledger.", "appliedOnlyInFinal"));
    v.push(("Not relaying disputed tx #some-base-16-hash", "noReplayDisputedTx"));
    v.push(("Don't have tx set for peer", "noTxSetForPeer"));
    v.push(("Test applying disputed transaction that did not get in #some-base-16-hash", "testApplyDisputed"));
    v.push(("createDisputes #some-base-16-hash to #some-base-16-hash", "createDisputes"));
    v.push(("Consensus built ledger we already had", "consensusBuiltLedgerWeHad"));
    v.push(("Transaction #some-base-16-hash is disputed", "transactionIsDisputed"));
    v.push(("Acquired TX set #some-base-16-hash", "acquiredTxSetHash"));
    v.push(("Consensus built ledger we were acquiring", "consensusBuiltLedgerWeAcquired"));
    v.push(("Taker Crossing as: #some-id", "takerCrossingAsId"));
    v.push(("Taker    Offer in: #some-value/#currency", "takerOfferIn"));
    v.push(("Taker   Offer out: #some-value/#currency", "takerOfferOut"));
    v.push(("Taker     Balance: #some-value/#currency", "takerOfferBalance"));
    v.push(("Create cancels order #some-value", "createCancelsOrder"));
    v.push(("Attempting cross: #some-account/#currency -> #currency", "attemptCrossCurrency"));
    v.push(("Attempting cross: #currency -> #some-account/#currency", "attemptCrossCurrency"));
    v.push(("Attempting cross: #some-account/#currency -> #some-account/#currency", "attemptCrossCurrency"));
    v.push(("final result: success", "finalResultSuccess"));
    v.push(("{truncated}", "ledgerInfoLog"));
    v.push(("#some differences found", "someDifferences"));
    v.push(("CCTime: seq #some: #some-peer-node has #some, #some required", "cctimeSeqRequired"));
    v.push(("Taker    Offer in:#some-ledger-close-timeXRP", "takerOfferInLedgerClose"));
    v.push(("Taker   Offer out:#some-ledger-close-timeXRP", "takerOfferOutLedgerClose"));
    v.push(("Status other than success #some", "statusOtherSuccess"));
    v.push(("We now vote YES on #some-base-16-hash", "nowVoteYes"));
    v.push(("We now vote NO on #some-base-16-hash", "nowVoteNo"));
    assert(pairs_view(final(v)@) =~= pairs_view(old(v)@) + labels_third());
}

/// Entries of the standard table, fourth part.
pub open spec fn labels_fourth() -> Seq<(Seq<char>, Seq<char>)> {
    seq![
        ("Timeout(#some) pc=#some acquiring #some-base-16-hash"@, "timeoutPcAcquiring"@),
        ("Pass: #some begins (#some transactions)"@, "passSomeBegins"@),
        ("Pass: #some completed (#some changes)"@, "passSomeCompleted"@),
        ("Not creating disputes: no position yet."@, "notCreatingDisputesNoPos"@),
        ("Applied #some transactions."@, "appliedTransactions"@),
        ("Flushed #some accounts and #some transactions nodes"@, "flushedAccountsAndNodes"@),
        ("Ledger #some-peer-node has #some transactions. Ledgers are processing as expected. Expected transactions is currently #some and multiplier is #some"@, "expectedTransactionsMul"@),
        ("Final pass: #some begins (#some transactions)"@, "finalPassBegins"@),
        ("Final pass: #some completed (#some changes)"@, "finalPassCompleted"@),
        ("Expected transactions updated to #some and multiplier updated to #some"@, "exectedTransactions"@),
        ("Transaction should be held: #some"@, "transactionShouldHeld"@),
        ("ValidationTrie #some-branch-support-object"@, "validationTrieBranch"@),
        ("Queued transaction #some-base-16-hash rules or flags have changed. Flags from #some_number to #some"@, "queuedTxRulesChanged"@),
        ("Queued transaction #some-base-16-hash applied successfully with tecPATH_DRY. Remove from queue."@, "queuedTxAppliedPathDry"@),
        ("Queued transaction #some-base-16-hash applied successfully with tesSUCCESS. Remove from queue."@, "queuedTxAppliedSuccess"@),
        ("Transaction is likely to claim a fee, but is queued until fee drops"@, "txFeeQueued"@),
        ("Trying to cancel offer #some-num"@, "tryCancelOffer"@),
        ("Proposal: Dropping UNTRUSTED (load)"@, "proposalDropUntrusted"@),
        ("Validation: Dropping UNTRUSTED (load)"@, "validationDropUntrusted"@),
        ("Added transaction #some-base-16-hash with result tesSUCCESS from existing account #some-account to queue. Flags: 0"@, "addedTxSuccessAccount"@),
        ("Added transaction #some-base-16-hash with result tesSUCCESS from new account #some-account to queue. Flags: 0"@, "addedTxSuccessNewAccount"@),
        ("Attempting to apply #some transactions"@, "attemptApplyTxs"@),
        ("not pausing (#truncated)"@, "notPausing"@),
        ("Checking for TX consensus: agree=#some, disagree=#some"@, "checkingTxConsensus"@),
        ("Report: Prop=#some val=#some corLCL=#some fail=#some"@, "reportPropvalColLCLFail"@),
        ("Report: Prev = #some-base-16-hash:#some"@, "reportPrev"@),
        ("Acquire #some-base-16-hash timeouts:1 good:#some-good-num dupe:#some-dupe-num"@, "acquireHashTimeoutGoodDupe"@),
        ("Using quorum of #some for new set of #some trusted validators (#some added, #some removed)"@, "UseQuorumNewValidators"@),
        ("MATCH: seq=#"@, "matchSeq"@),
        ("tryAdvance publishing seq #some:"@, "tryAdvancePublish"@),
        ("Ledger #some accepted :#some-base-16-hash"@, "ledgerAcceptedHash"@),
        ("updateAll complete: #some processed and #some removed"@, "upgradeAllComplete"@),
        ("No progress(#some) for ledger #some-base-16-hash"@, "noProgressLedger"@),
        ("Done: complete #some-num"@, "doneComplete"@),
        ("Val for #some-base-16-hash trusted/full from #some-id signing key #some-id current src=local"@, "valTrustedFullCurrent"@),
        ("Consensus ledger fully validated"@, "consensusLedgerFullyValidated"@),
        ("Can't get seq #some: from #some_number past"@, "cantGetSeqFrom"@),
        ("Relaying disputed tx #some-base-16-hash"@, "replayingDisputedTx"@),
        ("Ledger TX node stats: dupe:#some-dupe-num"@, "ledgerTxNodeStatsDupe"@),
        ("Acquire #some-base-16-hash good:#some-good-num dupe:#some-dupe-num"@, "acquireHashGoodDupe"@),
        ("activated #some-ip (#some:#some-id)"@, "activatedIp"@),
        ("Had everything locally"@, "everythingLocal"@),
        ("Acquire #some-base-16-hash timeouts:1 no nodes processed"@, "acquireTimeoutNoNodes"@),
        ("Trigger on ledger: #some-base-16-hash completed"@, "triggerLedgerHashCompleted"@),
        ("Acquire #some-base-16-hash timeouts:1 good:#some-good-num"@, "acquireTimeoutGood"@),
    ]
}

fn push_labels_fourth(v: &mut Vec<(&'static str, &'static str)>)
    ensures
        pairs_view(final(v)@) == pairs_view(old(v)@) + labels_fourth(),
{
    v.push(("Timeout(#some) pc=#some acquiring #some-base-16-hash", "timeoutPcAcquiring"));
    v.push(("Pass: #some begins (#some transactions)", "passSomeBegins"));
    v.push(("Pass: #some completed (#some changes)", "passSomeCompleted"));
    v.push(("Not creating disputes: no position yet.", "notCreatingDisputesNoPos"));
    v.push(("Applied #some transactions.", "appliedTransactions"));
    v.push(("Flushed #some accounts and #some transactions nodes", "flushedAccountsAndNodes"));
    v.push(("Ledger #some-peer-node has #some transactions. Ledgers are processing as expected. Expected transactions is currently #some and multiplier is #some", "expectedTransactionsMul"));
    v.push(("Final pass: #some begins (#some transactions)", "finalPassBegins"));
    v.push(("Final pass: #some completed (#some changes)", "finalPassCompleted"));
    v.push(("Expected transactions updated to #some and multiplier updated to #some", "exectedTransactions"));
    v.push(("Transaction should be held: #some", "transactionShouldHeld"));
    v.push(("ValidationTrie #some-branch-support-object", "validationTrieBranch"));
    v.push(("Queued transaction #some-base-16-hash rules or flags have changed. Flags from #some_number to #some", "queuedTxRulesChanged"));
    v.push(("Queued transaction #some-base-16-hash applied successfully with tecPATH_DRY. Remove from queue.", "queuedTxAppliedPathDry"));
    v.push(("Queued transaction #some-base-16-hash applied successfully with tesSUCCESS. Remove from queue.", "queuedTxAppliedSuccess"));
    v.push(("Transaction is likely to claim a fee, but is queued until fee drops", "txFeeQueued"));
    v.push(("Trying to cancel offer #some-num", "tryCancelOffer"));
    v.push(("Proposal: Dropping UNTRUSTED (load)", "proposalDropUntrusted"));
    v.push(("Validation: Dropping UNTRUSTED (load)", "validationDropUntrusted"));
    v.push(("Added transaction #some-base-16-hash with result tesSUCCESS from existing account #some-account to queue. Flags: 0", "addedTxSuccessAccount"));
    v.push(("Added transaction #some-base-16-hash with result tesSUCCESS from new account #some-account to queue. Flags: 0", "addedTxSuccessNewAccount"));
    v.push(("Attempting to apply #some transactions", "attemptApplyTxs"));
    v.push(("not pausing (#truncated)", "notPausing"));
    v.push(("Checking for TX consensus: agree=#some, disagree=#some", "checkingTxConsensus"));
    v.push(("Report: Prop=#some val=#some corLCL=#some fail=#some", "reportPropvalColLCLFail"));
    v.push(("Report: Prev = #some-base-16-hash:#some", "reportPrev"));
    v.push(("Acquire #some-base-16-hash timeouts:1 good:#some-good-num dupe:#some-dupe-num", "acquireHashTimeoutGoodDupe"));
    v.push(("Using quorum of #some for new set of #some trusted validators (#some added, #some removed)", "UseQuorumNewValidators"));
    v.push(("MATCH: seq=#", "matchSeq"));
    v.push(("tryAdvance publishing seq #some:", "tryAdvancePublish"));
    v.push(("Ledger #some accepted :#some-base-16-hash", "ledgerAcceptedHash"));
    v.push(("updateAll complete: #some processed and #some removed", "upgradeAllComplete"));
    v.push(("No progress(#some) for ledger #some-base-16-hash", "noProgressLedger"));
    v.push(("Done: complete #some-num", "doneComplete"));
    v.push(("Val for #some-base-16-hash trusted/full from #some-id signing key #some-id current src=local", "valTrustedFullCurrent"));
    v.push(("Consensus ledger fully validated", "consensusLedgerFullyValidated"));
    v.push(("Can't get seq #some: from #some_number past", "cantGetSeqFrom"));
    v.push(("Relaying disputed tx #some-base-16-hash", "replayingDisputedTx"));
    v.push(("Ledger TX node stats: dupe:#some-dupe-num", "ledgerTxNodeStatsDupe"));
    v.push(("Acquire #some-base-16-hash good:#some-good-num dupe:#some-dupe-num", "acquireHashGoodDupe"));
    v.push(("activated #some-ip (#some:#some-id)", "activatedIp"));
    v.push(("Had everything locally", "everythingLocal"));
    v.push(("Acquire #some-base-16-hash timeouts:1 no nodes processed", "acquireTimeoutNoNodes"));
    v.push(("Trigger on ledger: #some-base-16-hash completed", "triggerLedgerHashCompleted"));
    v.push(("Acquire #some-base-16-hash timeouts:1 good:#some-good-num", "acquireTimeoutGood"));
    assert(pairs_view(final(v)@) =~= pairs_view(old(v)@) + labels_fourth());
}

/// Entries of the standard table, fifth part.
pub open spec fn labels_fifth() -> Seq<(Seq<char>, Seq<char>)> {
    seq![
        ("Offer #some-num can't be found."@, "offerNotFound"@),
        ("Queued transaction #some-base-16-hash failed with tefPAST_SEQ. Remove from queue."@, "queuedTxFailedPastSeq"@),
        ("TMManifest, #some-items items"@, "manifestItems"@),
        ("Val for #some-base-16-hash UNtrusted/full from #some-id signing key #some-id current src=#some-src-num"@, "valUntrustedFullSigning"@),
        ("Node on our acquiring TX set is TXN we may not have"@, "nodeAcquiringTxMayNotHave"@),
        ("Transaction retry: The source account does not exist."@, "txRetrySourceNonExist"@),
        ("Got root TXS node, already have it"@, "gotRootTxsHaveIt"@),
        ("Acquire #some-base-16-hash abort timeouts:#some good:#some-good-num dupe:#some-dupe-num"@, "acquireAbortTimeout"@),
        ("Acquire #some-base-16-hash timeouts:#some good:#some-good-num dupe:#some-dupe-num"@, "acquireTimeoutGoodDupe"@),
        ("Acquire #some-base-16-hash timeouts:#some good:#some-good-num"@, "acquireTimeoutGood"@),
        ("activated [::ffff:#some-ip]:51235 (#some:#some-id)"@, "activatedIp"@),
        ("Consensus triggered check of ledger"@, "consensusTriggeredLedgerCheck"@),
        ("Acquire #some-base-16-hash timeouts:3 good:#some-good-num dupe:#some-dupe-num"@, "acquireTimeout"@),
        ("Acquire #some-base-16-hash timeouts:2 good:#some-good-num dupe:#some-dupe-num"@, "acquireTimeout"@),
        ("Acquire #some-base-16-hash abort timeouts:3 good:#some-good-num dupe:#some-dupe-num"@, "acquireAbortTimeout"@),
        ("GetObj: Late fetch pack for #some-obj"@, "getObjLateFetch"@),
        ("GetObj: Partial fetch pack for #some-obj"@, "getObjPartialFetch"@),
        ("Acquire #some-base-16-hash no nodes processed"@, "acquireNoNodes"@),
        ("Ledger #some-peer-node has #some transactions. Ledgers are processing slowly. Expected transactions is currently #some and multiplier is #some"@, "ledgerHashTxsProcessingSlow"@),
        ("Status: Out of sync"@, "statusOutOfSync"@),
        ("Advancing from #some_number to #some"@, "advanceFromTo"@),
        ("OrderBookDB::update>"@, "orderBookUpdate"@),
        ("#some-branch-support-object"@, "someBranchSupportobject"@),
        ("Val for #some-base-16-hash trusted/partial from #some-id signing key #some-id current src=local"@, "valTrustedPartialCurrent"@),
        ("GetObj: Full fetch pack for #some-obj"@, "getObjFullFetch"@),
        ("Swept #some out of #some inbound ledgers."@, "sweptSomeLedgers"@),
        ("Must wait minimum time before closing"@, "mustWaitMinBeforeClosing"@),
        ("OrderBookDB::update< #some books found"@, "someBooksFound"@),
        ("Transaction retry: Missing/inapplicable prior transaction."@, "txRetryMissingPriorTx"@),
        ("Transaction retry: Insufficient XRP balance to send."@, "txRetryInsufficientBalance"@),
        ("Transaction retry: A destination tag is required."@, "txRetryDestTagRequired"@),
    ]
}

fn push_labels_fifth(v: &mut Vec<(&'static str, &'static str)>)
    ensures
        pairs_view(final(v)@) == pairs_view(old(v)@) + labels_fifth(),
{
    v.push(("Offer #some-num can't be found.", "offerNotFound"));
    v.push(("Queued transaction #some-base-16-hash failed with tefPAST_SEQ. Remove from queue.", "queuedTxFailedPastSeq"));
    v.push(("TMManifest, #some-items items", "manifestItems"));
    v.push(("Val for #some-base-16-hash UNtrusted/full from #some-id signing key #some-id current src=#some-src-num", "valUntrustedFullSigning"));
    v.push(("Node on our acquiring TX set is TXN we may not have", "nodeAcquiringTxMayNotHave"));
    v.push(("Transaction retry: The source account does not exist.", "txRetrySourceNonExist"));
    v.push(("Got root TXS node, already have it", "gotRootTxsHaveIt"));
    v.push(("Acquire #some-base-16-hash abort timeouts:#some good:#some-good-num dupe:#some-dupe-num", "acquireAbortTimeout"));
    v.push(("Acquire #some-base-16-hash timeouts:#some good:#some-good-num dupe:#some-dupe-num", "acquireTimeoutGoodDupe"));
    v.push(("Acquire #some-base-16-hash timeouts:#some good:#some-good-num", "acquireTimeoutGood"));
    v.push(("activated [::ffff:#some-ip]:51235 (#some:#some-id)", "activatedIp"));
    v.push(("Consensus triggered check of ledger", "consensusTriggeredLedgerCheck"));
    v.push(("Acquire #some-base-16-hash timeouts:3 good:#some-good-num dupe:#some-dupe-num", "acquireTimeout"));
    v.push(("Acquire #some-base-16-hash timeouts:2 good:#some-good-num dupe:#some-dupe-num", "acquireTimeout"));
    v.push(("Acquire #some-base-16-hash abort timeouts:3 good:#some-good-num dupe:#some-dupe-num", "acquireAbortTimeout"));
    v.push(("GetObj: Late fetch pack for #some-obj", "getObjLateFetch"));
    v.push(("GetObj: Partial fetch pack for #some-obj", "getObjPartialFetch"));
    v.push(("Acquire #some-base-16-hash no nodes processed", "acquireNoNodes"));
    v.push(("Ledger #some-peer-node has #some transactions. Ledgers are processing slowly. Expected transactions is currently #some and multiplier is #some", "ledgerHashTxsProcessingSlow"));
    v.push(("Status: Out of sync", "statusOutOfSync"));
    v.push(("Advancing from #some_number to #some", "advanceFromTo"));
    v.push(("OrderBookDB::update>", "orderBookUpdate"));
    v.push(("#some-branch-support-object", "someBranchSupportobject"));
    v.push(("Val for #some-base-16-hash trusted/partial from #some-id signing key #some-id current src=local", "valTrustedPartialCurrent"));
    v.push(("GetObj: Full fetch pack for #some-obj", "getObjFullFetch"));
    v.push(("Swept #some out of #some inbound ledgers.", "sweptSomeLedgers"));
    v.push(("Must wait minimum time before closing", "mustWaitMinBeforeClosing"));
    v.push(("OrderBookDB::update< #some books found", "someBooksFound"));
    v.push(("Transaction retry: Missing/inapplicable prior transaction.", "txRetryMissingPriorTx"));
    v.push(("Transaction retry: Insufficient XRP balance to send.", "txRetryInsufficientBalance"));
    v.push(("Transaction retry: A destination tag is required.", "txRetryDestTagRequired"));
    assert(pairs_view(final(v)@) =~= pairs_view(old(v)@) + labels_fifth());
}

/// The pairs of the standard table.
pub fn standard_label_pairs() -> (r: Vec<(&'static str, &'static str)>)
    ensures
        pairs_view(r@) == standard_labels(),
{
    let mut v: Vec<(&'static str, &'static str)> = Vec::new();
    assert(pairs_view(v@) =~= Seq::empty());
    push_labels_first(&mut v);
    push_labels_second(&mut v);
    push_labels_third(&mut v);
    push_labels_fourth(&mut v);
    push_labels_fifth(&mut v);
    assert(pairs_view(v@) =~= standard_labels());
    v
}

} // verus!
