//! The flight recorder: an append-only log whose entries are chained by
//! their digests, with Merkle roots over ranges of it.
//!
//! An entry's digest is SHA-256 over its sequence number (eight bytes,
//! little-endian), its timestamp as RFC 3339 text, the canonical form of its
//! payload, and the digest of the entry before it. The first entry names
//! thirty-two zero bytes as its predecessor.
//!
//! The canonical form of a payload is compact JSON with the fields in the
//! order of their declaration: an object with the variant's name as its one
//! key, as in `{"ActionExecuted":{"action":"rm","success":true}}`. Scores
//! are written with six decimals, an absent value as `null`.

use vstd::prelude::*;
use vstd::bytes::{spec_u64_to_le_bytes, u64_to_le_bytes};
use crate::crypto::{constant_time_eq, sha256, sha256_digest};
use crate::error::SentinelError;
use crate::json::{
    json_bool,
    json_optional_number,
    json_optional_string,
    json_score,
    json_string,
    push_json_bool,
    push_json_optional_number,
    push_json_score,
    push_json_string,
};
use crate::simplex::{GovernanceLevel, SimplexDecision};
use crate::text::{push_bytes, push_text, utf8};
use crate::time::{wall_clock_now, Timestamp};

verus! {

/// What a log entry records.
#[derive(Debug, Clone)]
pub enum LogEntryType {
    /// An action was attempted.
    ActionAttempt { action: String },
    /// An action was carried out, successfully or not.
    ActionExecuted { action: String, success: bool },
    /// A composite risk score was computed.
    GammaUpdate { gamma: u64 },
    /// The controller made a decision.
    Intervention { decision: SimplexDecision },
    /// A human looked in.
    HumanCheckpoint { operator_id: Option<String> },
    /// A capability was checked against the environment.
    ContextVerification { valid: bool },
    /// Anything else worth recording.
    SystemEvent { event: String },
}

/// A governance level as a JSON string: the variant's bare name in quotes.
pub open spec fn json_level(level: GovernanceLevel) -> Seq<u8> {
    match level {
        GovernanceLevel::Observation => utf8("\"Observation\""@),
        GovernanceLevel::Friction => utf8("\"Friction\""@),
        GovernanceLevel::Confirmation => utf8("\"Confirmation\""@),
        GovernanceLevel::Restriction => utf8("\"Restriction\""@),
        GovernanceLevel::Supervision => utf8("\"Supervision\""@),
        GovernanceLevel::Suspension => utf8("\"Suspension\""@),
    }
}

/// A decision as a JSON object.
pub open spec fn decision_json(decision: SimplexDecision) -> Seq<u8> {
    utf8("{\"level\":"@) + json_level(decision.level) + utf8(",\"gamma\":"@) + json_score(
        decision.gamma,
    ) + utf8(",\"escalated\":"@) + json_bool(decision.escalated) + utf8(",\"deescalated\":"@)
        + json_bool(decision.deescalated) + utf8(",\"delay_ms\":"@) + json_optional_number(
        decision.delay_ms,
    ) + utf8(",\"requires_confirmation\":"@) + json_bool(decision.requires_confirmation) + utf8(
        ",\"blocked\":"@,
    ) + json_bool(decision.blocked) + utf8(",\"reason\":"@) + json_string(decision.reason@) + utf8(
        "}"@,
    )
}

/// The view of an optional string.
pub open spec fn optional_text(text: Option<String>) -> Option<Seq<char>> {
    match text {
        Some(t) => Some(t@),
        None => None,
    }
}

/// The canonical form of a payload.
pub open spec fn canonical(entry_type: LogEntryType) -> Seq<u8> {
    match entry_type {
        LogEntryType::ActionAttempt { action } => utf8("{\"ActionAttempt\":{\"action\":"@)
            + json_string(action@) + utf8("}}"@),
        LogEntryType::ActionExecuted { action, success } => utf8(
            "{\"ActionExecuted\":{\"action\":"@,
        ) + json_string(action@) + utf8(",\"success\":"@) + json_bool(success) + utf8("}}"@),
        LogEntryType::GammaUpdate { gamma } => utf8("{\"GammaUpdate\":{\"gamma\":"@) + json_score(
            gamma,
        ) + utf8("}}"@),
        LogEntryType::Intervention { decision } => utf8("{\"Intervention\":{\"decision\":"@)
            + decision_json(decision) + utf8("}}"@),
        LogEntryType::HumanCheckpoint { operator_id } => utf8(
            "{\"HumanCheckpoint\":{\"operator_id\":"@,
        ) + json_optional_string(optional_text(operator_id)) + utf8("}}"@),
        LogEntryType::ContextVerification { valid } => utf8(
            "{\"ContextVerification\":{\"valid\":"@,
        ) + json_bool(valid) + utf8("}}"@),
        LogEntryType::SystemEvent { event } => utf8("{\"SystemEvent\":{\"event\":"@) + json_string(
            event@,
        ) + utf8("}}"@),
    }
}

/// The digest that the first entry names as its predecessor: all zeros.
pub open spec fn genesis_hash() -> Seq<u8> {
    Seq::new(32, |i: int| 0u8)
}

/// The bytes that are hashed for an entry.
pub open spec fn entry_preimage(
    sequence: u64,
    timestamp: Timestamp,
    entry_type: LogEntryType,
    previous_hash: Seq<u8>,
) -> Seq<u8> {
    spec_u64_to_le_bytes(sequence) + utf8(timestamp.text()) + canonical(entry_type) + previous_hash
}

/// The digest of an entry with the given contents.
pub open spec fn entry_digest(
    sequence: u64,
    timestamp: Timestamp,
    entry_type: LogEntryType,
    previous_hash: Seq<u8>,
) -> Seq<u8> {
    sha256(entry_preimage(sequence, timestamp, entry_type, previous_hash))
}

/// Appends a governance level as a JSON string.
fn push_json_level(buf: &mut Vec<u8>, level: GovernanceLevel)
    ensures
        final(buf)@ == old(buf)@ + json_level(level),
{
    match level {
        GovernanceLevel::Observation => push_text(buf, "\"Observation\""),
        GovernanceLevel::Friction => push_text(buf, "\"Friction\""),
        GovernanceLevel::Confirmation => push_text(buf, "\"Confirmation\""),
        GovernanceLevel::Restriction => push_text(buf, "\"Restriction\""),
        GovernanceLevel::Supervision => push_text(buf, "\"Supervision\""),
        GovernanceLevel::Suspension => push_text(buf, "\"Suspension\""),
    }
}

/// Writes a decision as a JSON object.
pub fn encode_decision(decision: &SimplexDecision) -> (r: Result<Vec<u8>, SentinelError>)
    ensures
        r is Ok,
        r matches Ok(bytes) ==> bytes@ == decision_json(*decision),
{
    let mut buf: Vec<u8> = Vec::new();
    push_text(&mut buf, "{\"level\":");
    push_json_level(&mut buf, decision.level);
    push_text(&mut buf, ",\"gamma\":");
    push_json_score(&mut buf, decision.gamma);
    push_text(&mut buf, ",\"escalated\":");
    push_json_bool(&mut buf, decision.escalated);
    push_text(&mut buf, ",\"deescalated\":");
    push_json_bool(&mut buf, decision.deescalated);
    push_text(&mut buf, ",\"delay_ms\":");
    push_json_optional_number(&mut buf, decision.delay_ms);
    push_text(&mut buf, ",\"requires_confirmation\":");
    push_json_bool(&mut buf, decision.requires_confirmation);
    push_text(&mut buf, ",\"blocked\":");
    push_json_bool(&mut buf, decision.blocked);
    push_text(&mut buf, ",\"reason\":");
    match push_json_string(&mut buf, decision.reason.as_str()) {
        Ok(()) => {},
        Err(e) => {
            return Err(e);
        },
    }
    push_text(&mut buf, "}");
    assert(buf@ =~= decision_json(*decision));
    Ok(buf)
}

/// Writes the canonical form of a payload.
pub fn encode_entry_type(entry_type: &LogEntryType) -> (r: Result<Vec<u8>, SentinelError>)
    ensures
        r is Ok,
        r matches Ok(bytes) ==> bytes@ == canonical(*entry_type),
{
    let mut buf: Vec<u8> = Vec::new();
    match entry_type {
        LogEntryType::ActionAttempt { action } => {
            push_text(&mut buf, "{\"ActionAttempt\":{\"action\":");
            match push_json_string(&mut buf, action.as_str()) {
                Ok(()) => {},
                Err(e) => {
                    return Err(e);
                },
            }
        },
        LogEntryType::ActionExecuted { action, success } => {
            push_text(&mut buf, "{\"ActionExecuted\":{\"action\":");
            match push_json_string(&mut buf, action.as_str()) {
                Ok(()) => {},
                Err(e) => {
                    return Err(e);
                },
            }
            push_text(&mut buf, ",\"success\":");
            push_json_bool(&mut buf, *success);
        },
        LogEntryType::GammaUpdate { gamma } => {
            push_text(&mut buf, "{\"GammaUpdate\":{\"gamma\":");
            push_json_score(&mut buf, *gamma);
        },
        LogEntryType::Intervention { decision } => {
            push_text(&mut buf, "{\"Intervention\":{\"decision\":");
            match encode_decision(decision) {
                Ok(bytes) => push_bytes(&mut buf, bytes.as_slice()),
                Err(e) => {
                    return Err(e);
                },
            }
        },
        LogEntryType::HumanCheckpoint { operator_id } => {
            push_text(&mut buf, "{\"HumanCheckpoint\":{\"operator_id\":");
            match operator_id {
                Some(id) => {
                    match push_json_string(&mut buf, id.as_str()) {
                        Ok(()) => {},
                        Err(e) => {
                            return Err(e);
                        },
                    }
                },
                None => push_text(&mut buf, "null"),
            }
        },
        LogEntryType::ContextVerification { valid } => {
            push_text(&mut buf, "{\"ContextVerification\":{\"valid\":");
            push_json_bool(&mut buf, *valid);
        },
        LogEntryType::SystemEvent { event } => {
            push_text(&mut buf, "{\"SystemEvent\":{\"event\":");
            match push_json_string(&mut buf, event.as_str()) {
                Ok(()) => {},
                Err(e) => {
                    return Err(e);
                },
            }
        },
    }
    push_text(&mut buf, "}}");
    assert(buf@ =~= canonical(*entry_type));
    Ok(buf)
}

/// One entry of the log.
#[derive(Debug, Clone)]
pub struct LogEntry {
    /// The entry's position in the log, counted from zero.
    pub sequence: u64,
    /// When the entry was made.
    pub timestamp: Timestamp,
    /// What the entry records.
    pub entry_type: LogEntryType,
    /// The digest of the entry before this one; zeros for the first.
    pub previous_hash: [u8; 32],
    /// The digest of this entry.
    pub hash: [u8; 32],
}

impl LogEntry {
    /// The digest that the entry's contents call for.
    pub open spec fn digest(self) -> Seq<u8> {
        entry_digest(self.sequence, self.timestamp, self.entry_type, self.previous_hash@)
    }

    /// The entry's stored digest is the digest of its contents.
    pub open spec fn is_sealed(self) -> bool {
        self.timestamp.is_loggable() && self.hash@ == self.digest()
    }

    /// Computes the digest of an entry with the given contents. A
    /// timestamp that the log cannot carry is a serialization fault.
    pub fn compute_hash(
        sequence: u64,
        timestamp: &Timestamp,
        entry_type: &LogEntryType,
        previous_hash: &[u8; 32],
    ) -> (r: Result<[u8; 32], SentinelError>)
        ensures
            r is Ok == timestamp.is_loggable(),
            r matches Ok(hash) ==> hash@ == entry_digest(
                sequence,
                *timestamp,
                *entry_type,
                previous_hash@,
            ),
            r matches Err(e) ==> e is SerializationError,
    {
        let stamp = match timestamp.to_rfc3339() {
            Some(text) => text,
            None => {
                return Err(
                    SentinelError::SerializationError(
                        "timestamp outside the years 1970 to 9999".to_owned(),
                    ),
                );
            },
        };
        let payload = match encode_entry_type(entry_type) {
            Ok(bytes) => bytes,
            Err(e) => {
                return Err(e);
            },
        };
        let mut preimage: Vec<u8> = u64_to_le_bytes(sequence);
        push_text(&mut preimage, stamp.as_str());
        push_bytes(&mut preimage, payload.as_slice());
        push_bytes(&mut preimage, previous_hash.as_slice());
        assert(preimage@ =~= entry_preimage(sequence, *timestamp, *entry_type, previous_hash@));
        Ok(sha256_digest(preimage.as_slice()))
    }

    /// Whether the stored digest is the digest of the entry's contents.
    pub fn verify(&self) -> (ok: bool)
        ensures
            ok == self.is_sealed(),
    {
        match LogEntry::compute_hash(
            self.sequence,
            &self.timestamp,
            &self.entry_type,
            &self.previous_hash,
        ) {
            Ok(computed) => constant_time_eq(&computed, &self.hash),
            Err(_) => false,
        }
    }
}

/// The digest that the next entry after `log` names as its predecessor.
pub open spec fn tip(log: Seq<LogEntry>) -> Seq<u8> {
    if log.len() == 0 {
        genesis_hash()
    } else {
        log.last().hash@
    }
}

/// Entry `i` of `log` is sealed and names the entry before it.
pub open spec fn link_intact(log: Seq<LogEntry>, i: int) -> bool {
    &&& log[i].is_sealed()
    &&& log[i].previous_hash@ == tip(log.subrange(0, i))
}

/// Every entry is sealed and names the entry before it.
pub open spec fn chain_intact(log: Seq<LogEntry>) -> bool {
    forall|i: int| 0 <= i < log.len() ==> #[trigger] link_intact(log, i)
}

/// Every entry carries its own position as its sequence number.
pub open spec fn numbered(log: Seq<LogEntry>) -> bool {
    forall|i: int| 0 <= i < log.len() ==> (#[trigger] log[i]).sequence == i
}

/// `after` is `before` with one sealed entry more, made at `timestamp`.
pub open spec fn grew(before: Seq<LogEntry>, after: Seq<LogEntry>, timestamp: Timestamp) -> bool {
    &&& after.len() == before.len() + 1
    &&& after.subrange(0, before.len() as int) == before
    &&& after.last().sequence == before.len()
    &&& after.last().timestamp == timestamp
    &&& after.last().previous_hash@ == tip(before)
    &&& after.last().is_sealed()
}

/// What an append at `timestamp` does: with a timestamp that the log can
/// carry, it succeeds and the log grows by one entry; with any other it
/// fails with a serialization error and leaves the log as it was.
pub open spec fn append_outcome(
    before: Seq<LogEntry>,
    after: Seq<LogEntry>,
    timestamp: Timestamp,
    r: Result<(), SentinelError>,
) -> bool {
    if timestamp.is_loggable() {
        r is Ok && grew(before, after, timestamp)
    } else {
        &&& r matches Err(e)
        &&& e is SerializationError
        &&& after == before
    }
}

/// The digests of the given entries, in order.
pub open spec fn hashes_of(log: Seq<LogEntry>) -> Seq<Seq<u8>> {
    Seq::new(log.len(), |i: int| log[i].hash@)
}

/// The digests as byte sequences.
pub open spec fn digests(level: Seq<[u8; 32]>) -> Seq<Seq<u8>> {
    Seq::new(level.len(), |i: int| level[i]@)
}

/// The `i`-th node of the level above `level`: the digest of the pair at
/// `2i` and `2i + 1`, or of the last node with itself where it has no
/// partner.
pub open spec fn merkle_parent(level: Seq<Seq<u8>>, i: int) -> Seq<u8> {
    if 2 * i + 1 < level.len() {
        sha256(level[2 * i] + level[2 * i + 1])
    } else {
        sha256(level[2 * i] + level[2 * i])
    }
}

/// The level above `level`.
pub open spec fn merkle_level_above(level: Seq<Seq<u8>>) -> Seq<Seq<u8>> {
    Seq::new((level.len() + 1) / 2, |i: int| merkle_parent(level, i))
}

/// The Merkle root over the given leaves: a single leaf is its own root,
/// and more are folded pairwise, level by level, until one node is left.
/// No leaves give the all-zero digest.
pub open spec fn merkle_root_of(level: Seq<Seq<u8>>) -> Seq<u8>
    decreases level.len(),
{
    if level.len() == 0 {
        genesis_hash()
    } else if level.len() == 1 {
        level[0]
    } else {
        merkle_root_of(merkle_level_above(level))
    }
}

/// The entries of `log[..n]` whose timestamps lie between `start` and
/// `end`, both included, in log order.
pub open spec fn entries_within(log: Seq<LogEntry>, start: Timestamp, end: Timestamp, n: int) -> Seq<
    LogEntry,
>
    decreases n,
{
    if n <= 0 {
        Seq::empty()
    } else {
        let rest = entries_within(log, start, end, n - 1);
        let t = log[n - 1].timestamp;
        if start.total_nanos() <= t.total_nanos() <= end.total_nanos() {
            rest.push(log[n - 1])
        } else {
            rest
        }
    }
}

/// The entries that the references point to.
pub open spec fn pointees(refs: Seq<&LogEntry>) -> Seq<LogEntry> {
    Seq::new(refs.len(), |i: int| *refs[i])
}

/// Computes the Merkle root over the given digests.
pub fn merkle_root(hashes: &Vec<[u8; 32]>) -> (root: [u8; 32])
    ensures
        root@ == merkle_root_of(digests(hashes@)),
{
    if hashes.len() == 0 {
        let zeros = [0u8; 32];
        assert(zeros@ =~= genesis_hash());
        return zeros;
    }
    if hashes.len() == 1 {
        return hashes[0];
    }
    let mut level: Vec<[u8; 32]> = Vec::new();
    let mut k: usize = 0;
    while k < hashes.len()
        invariant
            k <= hashes@.len(),
            level@ == hashes@.subrange(0, k as int),
        decreases hashes@.len() - k,
    {
        level.push(hashes[k]);
        k = k + 1;
    }
    assert(level@ =~= hashes@);
    while level.len() > 1
        invariant
            level@.len() >= 1,
            merkle_root_of(digests(level@)) == merkle_root_of(digests(hashes@)),
        decreases level@.len(),
    {
        let mut above: Vec<[u8; 32]> = Vec::new();
        let mut i: usize = 0;
        let width: usize = level.len();
        let pairs: usize = (width - 1) / 2 + 1;
        assert(pairs == (level@.len() + 1) / 2);
        while i < pairs
            invariant
                i <= pairs,
                pairs == (level@.len() + 1) / 2,
                width == level@.len(),
                width >= 2,
                above@.len() == i,
                forall|j: int|
                    0 <= j < i ==> (#[trigger] above@[j])@ == merkle_parent(digests(level@), j),
            decreases pairs - i,
        {
            assert(2 * i + 1 <= width);
            let left: [u8; 32] = level[2 * i];
            let right: [u8; 32] = if 2 * i + 1 < level.len() {
                level[2 * i + 1]
            } else {
                level[2 * i]
            };
            let mut pair: Vec<u8> = Vec::new();
            push_bytes(&mut pair, left.as_slice());
            push_bytes(&mut pair, right.as_slice());
            assert(pair@ =~= left@ + right@);
            let parent: [u8; 32] = sha256_digest(pair.as_slice());
            assert(parent@ == merkle_parent(digests(level@), i as int));
            above.push(parent);
            i = i + 1;
        }
        assert(digests(above@) =~= merkle_level_above(digests(level@)));
        level = above;
    }
    level[0]
}

/// The log.
pub struct FlightRecorder {
    entries: Vec<LogEntry>,
    /// The digest of the newest entry; zeros while the log is empty.
    last_hash: [u8; 32],
    /// The sequence number that the next entry gets.
    sequence: u64,
}

impl View for FlightRecorder {
    type V = Seq<LogEntry>;

    closed spec fn view(&self) -> Seq<LogEntry> {
        self.entries@
    }
}

impl FlightRecorder {
    /// The recorder's invariant: the chain is intact, the entries are
    /// numbered from zero, and the recorder knows the digest of its newest
    /// entry and the number of the next.
    pub closed spec fn wf(&self) -> bool {
        &&& chain_intact(self.entries@)
        &&& numbered(self.entries@)
        &&& self.sequence == self.entries@.len()
        &&& self.last_hash@ == tip(self.entries@)
    }

    /// What the invariant says of the log itself.
    pub proof fn lemma_wf_log(&self)
        requires
            self.wf(),
        ensures
            chain_intact(self@),
            numbered(self@),
    {
    }

    /// An empty log.
    pub fn new() -> (recorder: FlightRecorder)
        ensures
            recorder.wf(),
            recorder@ == Seq::<LogEntry>::empty(),
    {
        let zeros = [0u8; 32];
        assert(zeros@ =~= genesis_hash());
        FlightRecorder { entries: Vec::new(), last_hash: zeros, sequence: 0 }
    }

    /// Appends an entry made at `timestamp`. The entry is put into its
    /// canonical form and hashed before anything changes, so a failure
    /// leaves the log as it was.
    pub fn append_at(&mut self, entry_type: LogEntryType, timestamp: Timestamp) -> (r: Result<
        (),
        SentinelError,
    >)
        requires
            old(self).wf(),
        ensures
            final(self).wf(),
            append_outcome(old(self)@, final(self)@, timestamp, r),
            r is Ok ==> final(self)@.last().entry_type == entry_type,
    {
        let hash = match LogEntry::compute_hash(
            self.sequence,
            &timestamp,
            &entry_type,
            &self.last_hash,
        ) {
            Ok(hash) => hash,
            Err(e) => {
                return Err(e);
            },
        };
        let entry = LogEntry {
            sequence: self.sequence,
            timestamp,
            entry_type,
            previous_hash: self.last_hash,
            hash,
        };
        let ghost before = self.entries@;
        self.entries.push(entry);
        self.last_hash = hash;
        self.sequence = self.entries.len() as u64;
        proof {
            let after = self.entries@;
            assert(after.subrange(0, before.len() as int) =~= before);
            assert forall|i: int| 0 <= i < after.len() implies #[trigger] link_intact(after, i) by {
                if i < before.len() {
                    assert(link_intact(before, i));
                    assert(after.subrange(0, i) =~= before.subrange(0, i));
                } else {
                    assert(after.subrange(0, i) =~= before);
                }
            }
            assert(after.subrange(0, after.len() as int) =~= after);
        }
        Ok(())
    }

    /// Appends an entry made now, by the wall clock.
    pub fn append(&mut self, entry_type: LogEntryType) -> (r: Result<(), SentinelError>)
        requires
            old(self).wf(),
        ensures
            final(self).wf(),
            exists|timestamp: Timestamp| #[trigger]
                append_outcome(old(self)@, final(self)@, timestamp, r),
            r is Ok ==> final(self)@.last().entry_type == entry_type,
    {
        let now = wall_clock_now();
        self.append_at(entry_type, now)
    }

    /// Records that an action was attempted.
    pub fn log_action(&mut self, action: &str) -> (r: Result<(), SentinelError>)
        requires
            old(self).wf(),
        ensures
            final(self).wf(),
            exists|timestamp: Timestamp| #[trigger]
                append_outcome(old(self)@, final(self)@, timestamp, r),
            r is Ok ==> (final(self)@.last().entry_type matches LogEntryType::ActionAttempt {
                action: a,
            } && a@ == action@),
    {
        self.append(LogEntryType::ActionAttempt { action: action.to_owned() })
    }

    /// Records how an action ended.
    pub fn log_execution(&mut self, action: &str, success: bool) -> (r: Result<(), SentinelError>)
        requires
            old(self).wf(),
        ensures
            final(self).wf(),
            exists|timestamp: Timestamp| #[trigger]
                append_outcome(old(self)@, final(self)@, timestamp, r),
            r is Ok ==> (final(self)@.last().entry_type matches LogEntryType::ActionExecuted {
                action: a,
                success: s,
            } && a@ == action@ && s == success),
    {
        self.append(LogEntryType::ActionExecuted { action: action.to_owned(), success })
    }

    /// Records a composite risk score.
    pub fn log_gamma(&mut self, gamma: u64) -> (r: Result<(), SentinelError>)
        requires
            old(self).wf(),
        ensures
            final(self).wf(),
            exists|timestamp: Timestamp| #[trigger]
                append_outcome(old(self)@, final(self)@, timestamp, r),
            r is Ok ==> final(self)@.last().entry_type == (LogEntryType::GammaUpdate { gamma }),
    {
        self.append(LogEntryType::GammaUpdate { gamma })
    }

    /// Records a decision of the controller.
    pub fn log_intervention(&mut self, decision: &SimplexDecision) -> (r: Result<
        (),
        SentinelError,
    >)
        requires
            old(self).wf(),
        ensures
            final(self).wf(),
            exists|timestamp: Timestamp| #[trigger]
                append_outcome(old(self)@, final(self)@, timestamp, r),
            r is Ok ==> final(self)@.last().entry_type == (LogEntryType::Intervention {
                decision: *decision,
            }),
    {
        self.append(LogEntryType::Intervention { decision: decision.duplicate() })
    }

    /// Records a human checkpoint, with the operator's name where known.
    pub fn log_human_checkpoint(&mut self, operator_id: Option<&str>) -> (r: Result<
        (),
        SentinelError,
    >)
        requires
            old(self).wf(),
        ensures
            final(self).wf(),
            exists|timestamp: Timestamp| #[trigger]
                append_outcome(old(self)@, final(self)@, timestamp, r),
            r is Ok ==> (final(self)@.last().entry_type matches LogEntryType::HumanCheckpoint {
                operator_id: id,
            } && match operator_id {
                Some(name) => id matches Some(text) && text@ == name@,
                None => id is None,
            }),
    {
        let operator_id = match operator_id {
            Some(name) => Some(name.to_owned()),
            None => None,
        };
        self.append(LogEntryType::HumanCheckpoint { operator_id })
    }

    /// Records the result of a capability check.
    pub fn log_context_verification(&mut self, valid: bool) -> (r: Result<(), SentinelError>)
        requires
            old(self).wf(),
        ensures
            final(self).wf(),
            exists|timestamp: Timestamp| #[trigger]
                append_outcome(old(self)@, final(self)@, timestamp, r),
            r is Ok ==> final(self)@.last().entry_type == (LogEntryType::ContextVerification {
                valid,
            }),
    {
        self.append(LogEntryType::ContextVerification { valid })
    }

    /// Records a system event.
    pub fn log_system_event(&mut self, event: &str) -> (r: Result<(), SentinelError>)
        requires
            old(self).wf(),
        ensures
            final(self).wf(),
            exists|timestamp: Timestamp| #[trigger]
                append_outcome(old(self)@, final(self)@, timestamp, r),
            r is Ok ==> (final(self)@.last().entry_type matches LogEntryType::SystemEvent {
                event: e,
            } && e@ == event@),
    {
        self.append(LogEntryType::SystemEvent { event: event.to_owned() })
    }

    /// Checks a list of entries: every entry's digest must be the digest
    /// of its contents, and every entry must name the one before it, the
    /// first naming zeros.
    pub fn verify_entries(entries: &Vec<LogEntry>) -> (ok: bool)
        ensures
            ok == chain_intact(entries@),
    {
        let mut expected = [0u8; 32];
        assert(expected@ =~= genesis_hash());
        let mut i: usize = 0;
        while i < entries.len()
            invariant
                i <= entries@.len(),
                expected@ == tip(entries@.subrange(0, i as int)),
                forall|j: int| 0 <= j < i ==> #[trigger] link_intact(entries@, j),
            decreases entries@.len() - i,
        {
            let entry = &entries[i];
            if !entry.verify() {
                assert(!link_intact(entries@, i as int));
                return false;
            }
            if !constant_time_eq(&entry.previous_hash, &expected) {
                assert(!link_intact(entries@, i as int));
                return false;
            }
            expected = entry.hash;
            assert(entries@.subrange(0, i + 1).last() == entries@[i as int]);
            i = i + 1;
        }
        true
    }

    /// Checks the whole chain. A recorder that has only been appended to
    /// always passes.
    pub fn verify_chain(&self) -> (ok: bool)
        ensures
            ok == chain_intact(self@),
            self.wf() ==> ok,
    {
        FlightRecorder::verify_entries(&self.entries)
    }

    /// The Merkle root over the entries from `start` up to, not including,
    /// `end`; `None` for an empty range or one that leaves the log. Over a
    /// single entry the root is that entry's digest.
    pub fn compute_merkle_root(&self, start: usize, end: usize) -> (root: Option<[u8; 32]>)
        ensures
            root is Some == (start < end && end <= self@.len()),
            root matches Some(r) ==> r@ == merkle_root_of(
                hashes_of(self@.subrange(start as int, end as int)),
            ),
            root matches Some(r) ==> (end == start + 1 ==> r@ == self@[start as int].hash@),
    {
        if start >= end || end > self.entries.len() {
            return None;
        }
        let mut hashes: Vec<[u8; 32]> = Vec::new();
        let mut i: usize = start;
        while i < end
            invariant
                start <= i <= end,
                end <= self.entries@.len(),
                hashes@.len() == i - start,
                forall|j: int|
                    0 <= j < i - start ==> (#[trigger] hashes@[j]) == self.entries@[start + j].hash,
            decreases end - i,
        {
            hashes.push(self.entries[i].hash);
            i = i + 1;
        }
        assert(digests(hashes@) =~= hashes_of(self@.subrange(start as int, end as int)));
        assert(end == start + 1 ==> digests(hashes@)[0] == self@[start as int].hash@);
        Some(merkle_root(&hashes))
    }

    /// The number of entries.
    pub fn len(&self) -> (n: usize)
        ensures
            n == self@.len(),
    {
        self.entries.len()
    }

    /// Whether the log has no entries.
    pub fn is_empty(&self) -> (empty: bool)
        ensures
            empty == (self@.len() == 0),
    {
        self.entries.len() == 0
    }

    /// The newest entry.
    pub fn latest(&self) -> (entry: Option<&LogEntry>)
        ensures
            entry is Some == (self@.len() > 0),
            entry matches Some(e) ==> *e == self@.last(),
    {
        if self.entries.len() == 0 {
            None
        } else {
            Some(&self.entries[self.entries.len() - 1])
        }
    }

    /// All entries, oldest first.
    pub fn entries(&self) -> (entries: &Vec<LogEntry>)
        ensures
            entries@ == self@,
    {
        &self.entries
    }

    /// The entries made between `start` and `end`, both included.
    pub fn entries_between(&self, start: Timestamp, end: Timestamp) -> (found: Vec<&LogEntry>)
        ensures
            pointees(found@) == entries_within(self@, start, end, self@.len() as int),
    {
        let mut found: Vec<&LogEntry> = Vec::new();
        let mut i: usize = 0;
        while i < self.entries.len()
            invariant
                i <= self.entries@.len(),
                pointees(found@) == entries_within(self.entries@, start, end, i as int),
            decreases self.entries@.len() - i,
        {
            let entry = &self.entries[i];
            let ghost before = found@;
            if start.at_or_before(&entry.timestamp) && entry.timestamp.at_or_before(&end) {
                found.push(entry);
                assert(pointees(found@) =~= pointees(before).push(*entry));
            }
            i = i + 1;
        }
        found
    }
}

impl Default for FlightRecorder {
    fn default() -> (recorder: FlightRecorder)
        ensures
            recorder.wf(),
            recorder@ == Seq::<LogEntry>::empty(),
    {
        FlightRecorder::new()
    }
}

/// A single leaf is its own Merkle root.
pub proof fn lemma_merkle_single_leaf(leaf: Seq<u8>)
    ensures
        merkle_root_of(seq![leaf]) == leaf,
{
}

/// The Merkle root over two leaves is the digest of the pair, and over
/// three leaves the last is paired with itself.
pub proof fn lemma_merkle_small(a: Seq<u8>, b: Seq<u8>, c: Seq<u8>)
    ensures
        merkle_root_of(seq![a, b]) == sha256(a + b),
        merkle_root_of(seq![a, b, c]) == sha256(sha256(a + b) + sha256(c + c)),
{
    let two = seq![a, b];
    assert(merkle_level_above(two) =~= seq![sha256(a + b)]);
    let three = seq![a, b, c];
    let above = merkle_level_above(three);
    assert(above =~= seq![sha256(a + b), sha256(c + c)]);
    assert(merkle_level_above(above) =~= seq![sha256(sha256(a + b) + sha256(c + c))]);
    reveal_with_fuel(merkle_root_of, 3);
}

/// Tampering with a stored digest is detected: in an intact chain, an
/// entry whose digest is replaced by any other value breaks the chain.
pub proof fn lemma_altered_hash_detected(log: Seq<LogEntry>, i: int, altered: LogEntry)
    requires
        chain_intact(log),
        0 <= i < log.len(),
        altered.sequence == log[i].sequence,
        altered.timestamp == log[i].timestamp,
        altered.entry_type == log[i].entry_type,
        altered.previous_hash@ == log[i].previous_hash@,
        altered.hash@ != log[i].hash@,
    ensures
        !chain_intact(log.update(i, altered)),
{
    assert(link_intact(log, i));
    assert(!link_intact(log.update(i, altered), i));
}

/// Tampering with a link is detected: in an intact chain, an entry whose
/// record of its predecessor's digest is replaced by any other value breaks
/// the chain.
pub proof fn lemma_altered_link_detected(log: Seq<LogEntry>, i: int, altered: LogEntry)
    requires
        chain_intact(log),
        0 <= i < log.len(),
        altered.previous_hash@ != log[i].previous_hash@,
    ensures
        !chain_intact(log.update(i, altered)),
{
    assert(link_intact(log, i));
    assert(log.update(i, altered).subrange(0, i) =~= log.subrange(0, i));
    assert(!link_intact(log.update(i, altered), i));
}

/// Tampering with an entry's contents passes only on a digest collision:
/// if an entry of an intact chain is replaced by one with the same stored
/// digest and the chain is still intact, then the contents of both entries
/// hash to the same digest.
pub proof fn lemma_altered_contents_collide(log: Seq<LogEntry>, i: int, altered: LogEntry)
    requires
        chain_intact(log),
        0 <= i < log.len(),
        altered.hash@ == log[i].hash@,
        chain_intact(log.update(i, altered)),
    ensures
        sha256(
            entry_preimage(
                altered.sequence,
                altered.timestamp,
                altered.entry_type,
                altered.previous_hash@,
            ),
        ) == sha256(
            entry_preimage(
                log[i].sequence,
                log[i].timestamp,
                log[i].entry_type,
                log[i].previous_hash@,
            ),
        ),
{
    assert(link_intact(log, i));
    assert(link_intact(log.update(i, altered), i));
}

/// Reordering passes only where digests repeat: if two entries of an
/// intact chain change places and the chain is still intact, then the
/// entries before the two places end in the same digest.
pub proof fn lemma_reordering_needs_equal_digests(log: Seq<LogEntry>, i: int, j: int)
    requires
        chain_intact(log),
        0 <= i < j < log.len(),
        chain_intact(log.update(i, log[j]).update(j, log[i])),
    ensures
        tip(log.subrange(0, i)) == tip(log.subrange(0, j)),
{
    let swapped = log.update(i, log[j]).update(j, log[i]);
    assert(link_intact(log, j));
    assert(link_intact(swapped, i));
    assert(swapped.subrange(0, i) =~= log.subrange(0, i));
}

} // verus!
