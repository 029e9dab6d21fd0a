//! The engine's convenience layer: the parsed forms of its JSON replies
//! (statistics, entities, search results), the bookkeeping of batch and
//! redo processing, and the collection of streamed exports.
use vstd::prelude::*;

use crate::json::{
    get_opt, json_array, json_get, json_get_opt, json_i64, json_str_or_empty, serde_json_from_str,
    str_member_or_empty, Json,
};
use crate::status::{json_failure_text, parse_response};
use crate::szerrortypes::{is_retryable, is_retryable_kind, SzError, SzErrorKind};
use crate::text::{concat, decimal, decimal_text};

verus! {

broadcast use vstd::string::group_string_axioms;

/// Pass this to the CSV export methods to use the server's default column
/// list.
pub const SZ_CSV_DEFAULT_COLUMNS: &'static str = "";

/// The engine component: a handle on the gRPC channel.
#[derive(Debug, Clone)]
pub struct SzEngineGrpc {
    channel: tonic::transport::Channel,
}

impl SzEngineGrpc {
    /// The channel handle the engine component sends its calls on.
    pub closed spec fn spec_channel(&self) -> tonic::transport::Channel {
        self.channel
    }

    /// Creates an engine component on `channel`.
    pub fn new(channel: tonic::transport::Channel) -> (c: Self)
        ensures
            c.spec_channel() == channel,
    {
        SzEngineGrpc { channel }
    }

    /// Returns a clone of the underlying channel handle.
    pub fn channel(&self) -> tonic::transport::Channel {
        self.channel.clone()
    }

    /// The text shown for the component (its `Display` form): its type's
    /// name.
    pub fn display(&self) -> (s: String)
        ensures
            s@ == "SzEngineGrpc"@,
    {
        "SzEngineGrpc".to_owned()
    }
}

// ---------------------------------------------------------------------
// Engine statistics
// ---------------------------------------------------------------------

/// The workload count of a statistics document: `workload.apiVersion`,
/// else `workload.loadedRecords`, else 0.
pub open spec fn stats_workload(doc: Json) -> i64 {
    let workload = json_get(doc, "workload"@);
    match json_i64(json_get_opt(workload, "apiVersion"@)) {
        Some(n) => n,
        None => match json_i64(json_get_opt(workload, "loadedRecords"@)) {
            Some(n) => n,
            None => 0,
        },
    }
}

/// Parsed engine statistics.
#[derive(Debug, Clone, PartialEq, Eq, PartialOrd, Ord, Hash)]
pub struct EngineStats {
    /// Number of workloads processed by the engine.
    pub workload: i64,
    /// The raw JSON reply.
    pub raw_json: String,
}

impl EngineStats {
    /// The statistics of a parsed statistics document.
    pub fn from_document(doc: &Json, raw_json: String) -> (stats: EngineStats)
        ensures
            stats.workload == stats_workload(*doc),
            stats.raw_json@ == raw_json@,
    {
        let workload = doc.get("workload");
        let by_version = match get_opt(workload, "apiVersion") {
            Some(v) => v.as_i64(),
            None => None,
        };
        let n = match by_version {
            Some(n) => n,
            None => match get_opt(workload, "loadedRecords") {
                Some(v) => match v.as_i64() {
                    Some(n) => n,
                    None => 0,
                },
                None => 0,
            },
        };
        EngineStats { workload: n, raw_json }
    }

    /// The text shown for the statistics (its `Display` form):
    /// `Engine stats (N workloads)`.
    pub fn display(&self) -> (s: String)
        ensures
            s@ == "Engine stats ("@ + decimal_text(self.workload as int) + " workloads)"@,
    {
        let n = decimal(self.workload as i128);
        let s = concat(&["Engine stats (", n.as_str(), " workloads)"]);
        proof {
            reveal_with_fuel(crate::text::concat_text, 4);
        }
        s
    }
}

// ---------------------------------------------------------------------
// Entities
// ---------------------------------------------------------------------

/// The `RECORD_COUNT` numbers of the record summary entries, in order;
/// entries without one are skipped.
pub open spec fn record_counts(entries: Seq<Json>) -> Seq<i64>
    decreases entries.len(),
{
    if entries.len() == 0 {
        Seq::empty()
    } else {
        let rest = record_counts(entries.drop_last());
        match json_i64(json_get(entries.last(), "RECORD_COUNT"@)) {
            Some(n) => rest.push(n),
            None => rest,
        }
    }
}

/// The sum of the numbers.
pub open spec fn total(counts: Seq<i64>) -> int
    decreases counts.len(),
{
    if counts.len() == 0 {
        0
    } else {
        total(counts.drop_last()) + counts.last()
    }
}

/// `true` when every running total of the numbers, added left to right,
/// fits in an `i64`.
pub open spec fn totals_fit(counts: Seq<i64>) -> bool {
    forall|k: int| 0 <= k <= counts.len() ==> i64::MIN <= #[trigger] total(counts.take(k)) <= i64::MAX
}

/// The `RESOLVED_ENTITY` member of an entity document.
pub open spec fn resolved_entity(doc: Json) -> Option<Json> {
    json_get(doc, "RESOLVED_ENTITY"@)
}

/// The record counts of an entity document's record summary (none when
/// there is no `RECORD_SUMMARY` array).
pub open spec fn entity_record_counts(doc: Json) -> Seq<i64> {
    match json_array(json_get_opt(resolved_entity(doc), "RECORD_SUMMARY"@)) {
        Some(entries) => record_counts(entries),
        None => Seq::empty(),
    }
}

/// The entity identifier of an entity document, if it has one.
pub open spec fn entity_id_of(doc: Json) -> Option<i64> {
    json_i64(json_get_opt(resolved_entity(doc), "ENTITY_ID"@))
}

/// `true` when reading `doc` as an entity does not overflow: it has no
/// entity identifier (and is refused), or its record counts add up within
/// `i64` at every step.
pub open spec fn entity_readable(doc: Json) -> bool {
    entity_id_of(doc) is None || totals_fit(entity_record_counts(doc))
}

/// Parsed entity data.
#[derive(Debug, Clone, PartialEq, Eq, PartialOrd, Ord, Hash)]
pub struct EntityData {
    /// The resolved entity ID.
    pub entity_id: i64,
    /// The entity name (best name chosen by resolution; empty when absent).
    pub entity_name: String,
    /// Number of records that resolved to this entity.
    pub record_count: i64,
    /// The raw JSON reply.
    pub raw_json: String,
}

/// The message of the error for an entity document without an entity
/// identifier.
pub open spec fn missing_entity_id_text() -> Seq<char> {
    "ENTITY_ID not found in entity response"@
}

impl EntityData {
    /// `true` when `self` is what the entity document `doc` gives: its
    /// `RESOLVED_ENTITY`'s `ENTITY_ID`, `ENTITY_NAME` (empty when absent)
    /// and the sum of the `RECORD_COUNT`s of its `RECORD_SUMMARY`.
    pub open spec fn is_read_from(&self, doc: Json, raw_json: Seq<char>) -> bool {
        &&& entity_id_of(doc) == Some(self.entity_id)
        &&& self.entity_name@ == json_str_or_empty(resolved_entity(doc), "ENTITY_NAME"@)
        &&& self.record_count == total(entity_record_counts(doc))
        &&& self.raw_json@ == raw_json
    }

    /// The entity data of a parsed entity document; a document without an
    /// entity identifier gives a `General` error (code 0).
    pub fn from_document(doc: &Json, raw_json: String) -> (r: Result<EntityData, SzError>)
        requires
            entity_readable(*doc),
        ensures
            match entity_id_of(*doc) {
                Some(_) => r matches Ok(data) && data.is_read_from(*doc, raw_json@),
                None => r matches Err(e) && e.is(SzErrorKind::General, 0, missing_entity_id_text()),
            },
    {
        let resolved = doc.get("RESOLVED_ENTITY");
        let entity_id = match get_opt(resolved, "ENTITY_ID") {
            Some(v) => v.as_i64(),
            None => None,
        };
        let entity_id = match entity_id {
            Some(id) => id,
            None => return Err(SzError::general("ENTITY_ID not found in entity response")),
        };
        let entity_name = match resolved {
            Some(r) => str_member_or_empty(r, "ENTITY_NAME"),
            None => String::new(),
        };
        let counts = summary_counts(doc);
        let record_count = sum_counts(&counts);
        Ok(EntityData { entity_id, entity_name, record_count, raw_json })
    }

    /// The text shown for the entity (its `Display` form):
    /// `Entity ID (NAME, N records)`.
    pub fn display(&self) -> (s: String)
        ensures
            s@ == "Entity "@ + decimal_text(self.entity_id as int) + " ("@ + self.entity_name@
                + ", "@ + decimal_text(self.record_count as int) + " records)"@,
    {
        let id = decimal(self.entity_id as i128);
        let n = decimal(self.record_count as i128);
        let s = concat(
            &["Entity ", id.as_str(), " (", self.entity_name.as_str(), ", ", n.as_str(), " records)"],
        );
        proof {
            reveal_with_fuel(crate::text::concat_text, 8);
        }
        s
    }
}

/// The record counts of an entity document (see [`entity_record_counts`]).
pub fn summary_counts(doc: &Json) -> (counts: Vec<i64>)
    ensures
        counts@ == entity_record_counts(*doc),
{
    let mut counts: Vec<i64> = Vec::new();
    let summary = get_opt(doc.get("RESOLVED_ENTITY"), "RECORD_SUMMARY");
    let entries = match summary {
        Some(s) => s.as_array(),
        None => None,
    };
    if let Some(entries) = entries {
        let mut i: usize = 0;
        while i < entries.len()
            invariant
                i <= entries.len(),
                json_array(json_get_opt(resolved_entity(*doc), "RECORD_SUMMARY"@)) == Some(entries@),
                counts@ == record_counts(entries@.take(i as int)),
            decreases entries.len() - i,
        {
            proof {
                assert(entries@.take(i + 1).drop_last() =~= entries@.take(i as int));
                assert(entries@.take(i + 1).last() == entries@[i as int]);
            }
            let n = match entries[i].get("RECORD_COUNT") {
                Some(v) => v.as_i64(),
                None => None,
            };
            if let Some(n) = n {
                counts.push(n);
            }
            i += 1;
        }
        proof {
            assert(entries@.take(entries@.len() as int) =~= entries@);
        }
    }
    counts
}

/// `true` when the numbers add up within `i64` at every step.
pub fn counts_fit(counts: &Vec<i64>) -> (b: bool)
    ensures
        b == totals_fit(counts@),
{
    let mut sum: i64 = 0;
    let mut i: usize = 0;
    proof {
        assert(counts@.take(0) =~= Seq::<i64>::empty());
    }
    while i < counts.len()
        invariant
            i <= counts.len(),
            sum == total(counts@.take(i as int)),
            forall|k: int| 0 <= k <= i ==> i64::MIN <= #[trigger] total(counts@.take(k)) <= i64::MAX,
        decreases counts.len() - i,
    {
        proof {
            assert(counts@.take(i + 1).drop_last() =~= counts@.take(i as int));
        }
        match sum.checked_add(counts[i]) {
            Some(next) => {
                sum = next;
            },
            None => {
                proof {
                    assert(!(i64::MIN <= total(counts@.take(i + 1)) <= i64::MAX));
                }
                return false;
            },
        }
        i += 1;
    }
    proof {
        assert(counts@.take(counts@.len() as int) =~= counts@);
    }
    true
}

/// The sum of the numbers, which must add up within `i64` at every step.
pub fn sum_counts(counts: &Vec<i64>) -> (sum: i64)
    requires
        totals_fit(counts@),
    ensures
        sum == total(counts@),
{
    let mut sum: i64 = 0;
    let mut i: usize = 0;
    proof {
        assert(counts@.take(0) =~= Seq::<i64>::empty());
    }
    while i < counts.len()
        invariant
            i <= counts.len(),
            totals_fit(counts@),
            sum == total(counts@.take(i as int)),
        decreases counts.len() - i,
    {
        proof {
            assert(counts@.take(i + 1).drop_last() =~= counts@.take(i as int));
            assert(i64::MIN <= total(counts@.take(i + 1)) <= i64::MAX);
        }
        sum = sum + counts[i];
        i += 1;
    }
    proof {
        assert(counts@.take(counts@.len() as int) =~= counts@);
    }
    sum
}

/// The message of the error for an entity reply without an entity
/// identifier, as [`SzEngineGrpc::lookup_entity_id`] reports it.
pub open spec fn lookup_missing_text() -> Seq<char> {
    "ENTITY_ID not found in response"@
}

impl SzEngineGrpc {
    /// Parses the reply of `get_entity_by_entity_id` into an
    /// [`EntityData`]. A reply that does not parse as JSON, and one without
    /// an entity identifier, give a `General` error (code 0).
    ///
    /// `None` when the record counts overflow `i64` as they are added up
    /// (where an unchecked sum would overflow).
    pub fn get_entity_parsed(raw_json: String) -> (r: Option<Result<EntityData, SzError>>)
        ensures
            match serde_json_from_str(raw_json@) {
                Ok(doc) => if entity_readable(doc) {
                    r matches Some(res) && match entity_id_of(doc) {
                        Some(_) => res matches Ok(data) && data.is_read_from(doc, raw_json@),
                        None => res matches Err(e) && e.is(
                            SzErrorKind::General,
                            0,
                            missing_entity_id_text(),
                        ),
                    }
                } else {
                    r is None
                },
                Err(err) => r matches Some(Err(e)) && e.is(
                    SzErrorKind::General,
                    0,
                    json_failure_text("entity"@, err),
                ),
            },
    {
        let doc = match parse_response("entity", raw_json.as_str()) {
            Ok(doc) => doc,
            Err(e) => return Some(Err(e)),
        };
        let has_id = match get_opt(doc.get("RESOLVED_ENTITY"), "ENTITY_ID") {
            Some(v) => v.as_i64().is_some(),
            None => false,
        };
        if has_id {
            let counts = summary_counts(&doc);
            if !counts_fit(&counts) {
                return None;
            }
        }
        Some(EntityData::from_document(&doc, raw_json))
    }

    /// Reads the entity identifier from the reply of
    /// `get_entity_by_record_id`: its `RESOLVED_ENTITY.ENTITY_ID`. A reply
    /// that does not parse as JSON, and one without an entity identifier,
    /// give a `General` error (code 0).
    pub fn lookup_entity_id(response: &str) -> (r: Result<i64, SzError>)
        ensures
            match serde_json_from_str(response@) {
                Ok(doc) => match entity_id_of(doc) {
                    Some(id) => r == Ok::<i64, SzError>(id),
                    None => r matches Err(e) && e.is(SzErrorKind::General, 0, lookup_missing_text()),
                },
                Err(err) => r matches Err(e) && e.is(
                    SzErrorKind::General,
                    0,
                    json_failure_text("entity"@, err),
                ),
            },
    {
        let doc = match parse_response("entity", response) {
            Ok(doc) => doc,
            Err(e) => return Err(e),
        };
        let id = match get_opt(doc.get("RESOLVED_ENTITY"), "ENTITY_ID") {
            Some(v) => v.as_i64(),
            None => None,
        };
        match id {
            Some(id) => Ok(id),
            None => Err(SzError::general("ENTITY_ID not found in response")),
        }
    }

    /// Parses the reply of `get_stats` into an [`EngineStats`]; a reply
    /// that does not parse as JSON gives a `General` error (code 0).
    pub fn get_stats_parsed(raw_json: String) -> (r: Result<EngineStats, SzError>)
        ensures
            match serde_json_from_str(raw_json@) {
                Ok(doc) => r matches Ok(stats) && stats.workload == stats_workload(doc)
                    && stats.raw_json@ == raw_json@,
                Err(err) => r matches Err(e) && e.is(
                    SzErrorKind::General,
                    0,
                    json_failure_text("stats"@, err),
                ),
            },
    {
        match parse_response("stats", raw_json.as_str()) {
            Ok(doc) => Ok(EngineStats::from_document(&doc, raw_json)),
            Err(e) => Err(e),
        }
    }
}

// ---------------------------------------------------------------------
// Search results
// ---------------------------------------------------------------------

/// A search match as a plain value: entity identifier, entity name and
/// match score.
pub type Hit = (i64, Seq<char>, i64);

/// A single entity match from a search result.
#[derive(Debug, PartialEq, Eq, PartialOrd, Ord, Hash)]
pub struct SearchEntity {
    /// The resolved entity ID.
    pub entity_id: i64,
    /// The entity name (best name chosen by resolution; empty when absent).
    pub entity_name: String,
    /// Match score (higher is a better match).
    pub match_score: i64,
}

impl View for SearchEntity {
    type V = Hit;

    open spec fn view(&self) -> Hit {
        (self.entity_id, self.entity_name@, self.match_score)
    }
}

impl Clone for SearchEntity {
    fn clone(&self) -> (e: Self)
        ensures
            e == *self,
    {
        SearchEntity {
            entity_id: self.entity_id,
            entity_name: self.entity_name.clone(),
            match_score: self.match_score,
        }
    }
}

impl SearchEntity {
    /// The text shown for the match (its `Display` form):
    /// `Entity ID (NAME, score N)`.
    pub fn display(&self) -> (s: String)
        ensures
            s@ == "Entity "@ + decimal_text(self.entity_id as int) + " ("@ + self.entity_name@
                + ", score "@ + decimal_text(self.match_score as int) + ")"@,
    {
        let id = decimal(self.entity_id as i128);
        let score = decimal(self.match_score as i128);
        let s = concat(
            &["Entity ", id.as_str(), " (", self.entity_name.as_str(), ", score ", score.as_str(), ")"],
        );
        proof {
            reveal_with_fuel(crate::text::concat_text, 8);
        }
        s
    }
}

/// The plain values of the matches.
pub open spec fn hits(entities: Seq<SearchEntity>) -> Seq<Hit> {
    entities.map_values(|e: SearchEntity| e@)
}

/// The match that a search result entry describes: its
/// `ENTITY.RESOLVED_ENTITY` gives the identifier (required) and the name
/// (empty when absent); its `MATCH_INFO` gives the score, `MATCH_SCORE`
/// else `ERRULE_CODE` else 0. `None` when the entry has no identifier.
pub open spec fn hit_of(entry: Json) -> Option<Hit> {
    let entity = json_get_opt(json_get(entry, "ENTITY"@), "RESOLVED_ENTITY"@);
    let match_info = json_get(entry, "MATCH_INFO"@);
    match json_i64(json_get_opt(entity, "ENTITY_ID"@)) {
        Some(id) => Some(
            (
                id,
                json_str_or_empty(entity, "ENTITY_NAME"@),
                match json_i64(json_get_opt(match_info, "MATCH_SCORE"@)) {
                    Some(score) => score,
                    None => match json_i64(json_get_opt(match_info, "ERRULE_CODE"@)) {
                        Some(code) => code,
                        None => 0,
                    },
                },
            ),
        ),
        None => None,
    }
}

/// The matches of the search result entries, in order; entries without an
/// entity identifier are skipped.
pub open spec fn entry_hits(entries: Seq<Json>) -> Seq<Hit>
    decreases entries.len(),
{
    if entries.len() == 0 {
        Seq::empty()
    } else {
        let rest = entry_hits(entries.drop_last());
        match hit_of(entries.last()) {
            Some(h) => rest.push(h),
            None => rest,
        }
    }
}

/// The matches of a search result document, in the server's order: those
/// of its `RESOLVED_ENTITIES` array (none when there is no such array).
pub open spec fn search_hits(doc: Json) -> Seq<Hit> {
    match json_array(json_get(doc, "RESOLVED_ENTITIES"@)) {
        Some(entries) => entry_hits(entries),
        None => Seq::empty(),
    }
}

/// The position at which a match scored `score` is ranked in `ranked`:
/// after every match scored at least as high.
pub open spec fn rank_position(ranked: Seq<Hit>, score: i64) -> int
    decreases ranked.len(),
{
    if ranked.len() == 0 {
        0
    } else if ranked[0].2 < score {
        0
    } else {
        1 + rank_position(ranked.drop_first(), score)
    }
}

/// The matches ranked by score, best first; matches with equal scores keep
/// their order.
pub open spec fn rank_by_score(hs: Seq<Hit>) -> Seq<Hit>
    decreases hs.len(),
{
    if hs.len() == 0 {
        Seq::empty()
    } else {
        let ranked = rank_by_score(hs.drop_last());
        ranked.insert(rank_position(ranked, hs.last().2), hs.last())
    }
}

/// `true` when the scores never increase from one match to the next.
pub open spec fn is_ranked(hs: Seq<Hit>) -> bool {
    forall|i: int, j: int| 0 <= i < j < hs.len() ==> (#[trigger] hs[i]).2 >= (#[trigger] hs[j]).2
}

/// The matches scored at least `min_score`, in order.
pub open spec fn scored_at_least(hs: Seq<Hit>, min_score: i64) -> Seq<Hit>
    decreases hs.len(),
{
    if hs.len() == 0 {
        Seq::empty()
    } else {
        let rest = scored_at_least(hs.drop_last(), min_score);
        if hs.last().2 >= min_score {
            rest.push(hs.last())
        } else {
            rest
        }
    }
}

proof fn lemma_rank_position_bounds(ranked: Seq<Hit>, score: i64)
    ensures
        0 <= rank_position(ranked, score) <= ranked.len(),
        forall|i: int| 0 <= i < rank_position(ranked, score) ==> (#[trigger] ranked[i]).2 >= score,
        rank_position(ranked, score) < ranked.len() ==> ranked[rank_position(ranked, score)].2 < score,
    decreases ranked.len(),
{
    if ranked.len() > 0 && ranked[0].2 >= score {
        let rest = ranked.drop_first();
        lemma_rank_position_bounds(rest, score);
        assert forall|i: int| 0 <= i < rank_position(ranked, score) implies (#[trigger] ranked[i]).2
            >= score by {
            if i > 0 {
                assert(ranked[i] == rest[i - 1]);
            }
        }
    }
}

/// The position is the first whose score is lower, given that none before
/// `k` is lower and the one at `k` (if any) is.
proof fn lemma_rank_position_first(ranked: Seq<Hit>, score: i64, k: int)
    requires
        0 <= k <= ranked.len(),
        forall|i: int| 0 <= i < k ==> (#[trigger] ranked[i]).2 >= score,
        k < ranked.len() ==> ranked[k].2 < score,
    ensures
        rank_position(ranked, score) == k,
    decreases ranked.len(),
{
    if ranked.len() > 0 && k > 0 {
        let rest = ranked.drop_first();
        assert forall|i: int| 0 <= i < k - 1 implies (#[trigger] rest[i]).2 >= score by {
            assert(rest[i] == ranked[i + 1]);
        }
        lemma_rank_position_first(rest, score, k - 1);
    }
}

/// Ranking puts the matches in order of score, best first, and keeps every
/// match (the result is a permutation of the input).
pub proof fn lemma_rank_by_score(hs: Seq<Hit>)
    ensures
        is_ranked(rank_by_score(hs)),
        rank_by_score(hs).to_multiset() == hs.to_multiset(),
        rank_by_score(hs).len() == hs.len(),
    decreases hs.len(),
{
    if hs.len() > 0 {
        let ranked = rank_by_score(hs.drop_last());
        lemma_rank_by_score(hs.drop_last());
        let h = hs.last();
        let k = rank_position(ranked, h.2);
        lemma_rank_position_bounds(ranked, h.2);
        let out = ranked.insert(k, h);
        assert forall|i: int, j: int| 0 <= i < j < out.len() implies (#[trigger] out[i]).2 >= (
        #[trigger] out[j]).2 by {
            if j < k {
                assert(ranked[i].2 >= ranked[j].2);
            } else if j == k {
                assert(out[i] == ranked[i]);
            } else if i == k {
                assert(out[j] == ranked[j - 1]);
                assert(ranked[k].2 >= ranked[j - 1].2 || j - 1 == k);
            } else if i < k {
                assert(out[j] == ranked[j - 1]);
                assert(ranked[i].2 >= ranked[j - 1].2);
            } else {
                assert(ranked[i - 1].2 >= ranked[j - 1].2);
            }
        }
        assert(hs =~= hs.drop_last().push(h));
        vstd::seq_lib::to_multiset_insert(ranked, k, h);
        vstd::seq_lib::to_multiset_build(hs.drop_last(), h);
    } else {
        assert(hs =~= Seq::<Hit>::empty());
    }
}

/// Parsed search results.
#[derive(Debug, Clone, PartialEq, Eq, PartialOrd, Ord, Hash)]
pub struct SearchResults {
    /// Matching entities, ordered by match score (best first).
    pub entities: Vec<SearchEntity>,
    /// The raw JSON reply.
    pub raw_json: String,
}

/// The match described by a search result entry (see [`hit_of`]).
fn search_entity_of(entry: &Json) -> (r: Option<SearchEntity>)
    ensures
        match hit_of(*entry) {
            Some(h) => r matches Some(e) && e@ == h,
            None => r is None,
        },
{
    let entity = get_opt(entry.get("ENTITY"), "RESOLVED_ENTITY");
    let entity_id = match get_opt(entity, "ENTITY_ID") {
        Some(v) => v.as_i64(),
        None => None,
    };
    let entity_id = match entity_id {
        Some(id) => id,
        None => return None,
    };
    let entity_name = match entity {
        Some(e) => str_member_or_empty(e, "ENTITY_NAME"),
        None => String::new(),
    };
    let match_info = entry.get("MATCH_INFO");
    let by_score = match get_opt(match_info, "MATCH_SCORE") {
        Some(v) => v.as_i64(),
        None => None,
    };
    let match_score = match by_score {
        Some(score) => score,
        None => match get_opt(match_info, "ERRULE_CODE") {
            Some(v) => match v.as_i64() {
                Some(code) => code,
                None => 0,
            },
            None => 0,
        },
    };
    Some(SearchEntity { entity_id, entity_name, match_score })
}

/// Inserts `e` into `ranked` after every match scored at least as high.
fn insert_ranked(ranked: &mut Vec<SearchEntity>, e: SearchEntity)
    ensures
        hits(final(ranked)@) == hits(old(ranked)@).insert(
            rank_position(hits(old(ranked)@), e.match_score),
            e@,
        ),
{
    let ghost before = hits(ranked@);
    let mut k: usize = 0;
    while k < ranked.len() && ranked[k].match_score >= e.match_score
        invariant
            k <= ranked.len(),
            before == hits(ranked@),
            forall|i: int| 0 <= i < k ==> (#[trigger] before[i]).2 >= e.match_score,
        decreases ranked.len() - k,
    {
        k += 1;
    }
    proof {
        lemma_rank_position_first(before, e.match_score, k as int);
    }
    ranked.insert(k, e);
    proof {
        assert(hits(ranked@) =~= before.insert(k as int, e@));
    }
}

impl SearchResults {
    /// The search results of a parsed search result document: its matches
    /// (see [`search_hits`]) ranked by score, best first.
    pub fn from_document(doc: &Json, raw_json: String) -> (results: SearchResults)
        ensures
            hits(results.entities@) == rank_by_score(search_hits(*doc)),
            results.raw_json@ == raw_json@,
    {
        let mut entities: Vec<SearchEntity> = Vec::new();
        let list = match doc.get("RESOLVED_ENTITIES") {
            Some(v) => v.as_array(),
            None => None,
        };
        if let Some(entries) = list {
            let mut i: usize = 0;
            while i < entries.len()
                invariant
                    i <= entries.len(),
                    json_array(json_get(*doc, "RESOLVED_ENTITIES"@)) == Some(entries@),
                    hits(entities@) == rank_by_score(entry_hits(entries@.take(i as int))),
                decreases entries.len() - i,
            {
                proof {
                    assert(entries@.take(i + 1).drop_last() =~= entries@.take(i as int));
                    assert(entries@.take(i + 1).last() == entries@[i as int]);
                }
                match search_entity_of(&entries[i]) {
                    Some(e) => {
                        insert_ranked(&mut entities, e);
                        proof {
                            let hs = entry_hits(entries@.take(i + 1));
                            assert(hs.drop_last() =~= entry_hits(entries@.take(i as int)));
                        }
                    },
                    None => {},
                }
                i += 1;
            }
            proof {
                assert(entries@.take(entries@.len() as int) =~= entries@);
            }
        }
        SearchResults { entities, raw_json }
    }

    /// Returns `true` if no entities matched the search.
    pub fn is_empty(&self) -> (b: bool)
        ensures
            b == (self.entities@.len() == 0),
    {
        self.entities.is_empty()
    }

    /// Returns the number of matching entities.
    pub fn len(&self) -> (n: usize)
        ensures
            n == self.entities@.len(),
    {
        self.entities.len()
    }

    /// Returns the best match: the one with the highest score, the first
    /// of them when several share it; `None` when nothing matched. In
    /// ranked results (as [`SzEngineGrpc::search_parsed`] gives them) this
    /// is the first match.
    pub fn best_match(&self) -> (r: Option<&SearchEntity>)
        ensures
            match r {
                Some(e) => exists|k: int|
                    {
                        &&& 0 <= k < self.entities@.len()
                        &&& *e == #[trigger] self.entities@[k]
                        &&& forall|i: int|
                            0 <= i < self.entities@.len() ==> (#[trigger] self.entities@[i]).match_score
                                <= e.match_score
                        &&& forall|i: int|
                            0 <= i < k ==> (#[trigger] self.entities@[i]).match_score < e.match_score
                    },
                None => self.entities@.len() == 0,
            },
            is_ranked(hits(self.entities@)) && self.entities@.len() > 0 ==> (r matches Some(e)
                && *e == self.entities@[0]),
    {
        if self.entities.len() == 0 {
            return None;
        }
        let mut best: usize = 0;
        let mut i: usize = 1;
        while i < self.entities.len()
            invariant
                0 < i <= self.entities@.len(),
                best < i,
                forall|j: int| 0 <= j < i ==> (#[trigger] self.entities@[j]).match_score
                    <= self.entities@[best as int].match_score,
                forall|j: int| 0 <= j < best ==> (#[trigger] self.entities@[j]).match_score
                    < self.entities@[best as int].match_score,
            decreases self.entities@.len() - i,
        {
            if self.entities[i].match_score > self.entities[best].match_score {
                best = i;
            }
            i += 1;
        }
        proof {
            if is_ranked(hits(self.entities@)) && best > 0 {
                assert(hits(self.entities@)[0].2 >= hits(self.entities@)[best as int].2);
                assert(self.entities@[0].match_score < self.entities@[best as int].match_score);
            }
        }
        Some(&self.entities[best])
    }

    /// Returns the first `n` matches (all of them when there are fewer).
    pub fn top_n(&self, n: usize) -> (r: Vec<&SearchEntity>)
        ensures
            r@.len() == if n < self.entities@.len() {
                n as int
            } else {
                self.entities@.len() as int
            },
            forall|i: int| 0 <= i < r@.len() ==> *r@[i] == self.entities@[i],
    {
        let mut r: Vec<&SearchEntity> = Vec::new();
        let mut i: usize = 0;
        while i < n && i < self.entities.len()
            invariant
                i <= self.entities@.len(),
                i <= n,
                r@.len() == i,
                forall|j: int| 0 <= j < i ==> *r@[j] == self.entities@[j],
            decreases self.entities@.len() - i,
        {
            r.push(&self.entities[i]);
            i += 1;
        }
        r
    }

    /// Returns results holding only the matches scored at least
    /// `min_score`, in the same order, with the same raw reply.
    pub fn filter_by_min_score(&self, min_score: i64) -> (r: SearchResults)
        ensures
            hits(r.entities@) == scored_at_least(hits(self.entities@), min_score),
            r.raw_json@ == self.raw_json@,
    {
        let mut kept: Vec<SearchEntity> = Vec::new();
        let mut i: usize = 0;
        while i < self.entities.len()
            invariant
                i <= self.entities@.len(),
                hits(kept@) == scored_at_least(hits(self.entities@).take(i as int), min_score),
            decreases self.entities@.len() - i,
        {
            proof {
                let hs = hits(self.entities@);
                assert(hs.take(i + 1).drop_last() =~= hs.take(i as int));
                assert(hs.take(i + 1).last() == self.entities@[i as int]@);
            }
            if self.entities[i].match_score >= min_score {
                kept.push(self.entities[i].clone());
                proof {
                    assert(hits(kept@) =~= scored_at_least(hits(self.entities@).take(i as int), min_score).push(self.entities@[i as int]@));
                }
            }
            i += 1;
        }
        proof {
            assert(hits(self.entities@).take(self.entities@.len() as int) =~= hits(self.entities@));
        }
        SearchResults { entities: kept, raw_json: self.raw_json.clone() }
    }

    /// Returns the entity IDs of all matches, in order.
    pub fn entity_ids(&self) -> (ids: Vec<i64>)
        ensures
            ids@ == self.entities@.map_values(|e: SearchEntity| e.entity_id),
    {
        let mut ids: Vec<i64> = Vec::new();
        let mut i: usize = 0;
        while i < self.entities.len()
            invariant
                i <= self.entities@.len(),
                ids@ == self.entities@.take(i as int).map_values(|e: SearchEntity| e.entity_id),
            decreases self.entities@.len() - i,
        {
            ids.push(self.entities[i].entity_id);
            proof {
                assert(self.entities@.take(i + 1).map_values(|e: SearchEntity| e.entity_id) =~= self.entities@.take(i as int).map_values(|e: SearchEntity| e.entity_id).push(self.entities@[i as int].entity_id));
            }
            i += 1;
        }
        proof {
            assert(self.entities@.take(self.entities@.len() as int) =~= self.entities@);
        }
        ids
    }

    /// The text shown for the results (its `Display` form):
    /// `N matching entities`.
    pub fn display(&self) -> (s: String)
        ensures
            s@ == decimal_text(self.entities@.len() as int) + " matching entities"@,
    {
        let n = decimal(self.entities.len() as i128);
        let s = concat(&[n.as_str(), " matching entities"]);
        proof {
            reveal_with_fuel(crate::text::concat_text, 3);
        }
        s
    }
}

/// In ranked results (as [`SzEngineGrpc::search_parsed`] gives them), the
/// first match scores at least as high as every match.
pub proof fn lemma_ranked_first_highest(results: SearchResults)
    requires
        is_ranked(hits(results.entities@)),
        results.entities@.len() > 0,
    ensures
        forall|i: int| 0 <= i < results.entities@.len() ==> results.entities@[0].match_score
            >= (#[trigger] results.entities@[i]).match_score,
{
    assert forall|i: int| 0 <= i < results.entities@.len() implies results.entities@[0].match_score
        >= (#[trigger] results.entities@[i]).match_score by {
        if i > 0 {
            assert(hits(results.entities@)[0].2 >= hits(results.entities@)[i].2);
        }
    }
}

/// Filtering by a minimum score keeps ranked results ranked, and keeps
/// exactly the matches scored at least that high.
pub proof fn lemma_filter_keeps_ranking(hs: Seq<Hit>, min_score: i64)
    requires
        is_ranked(hs),
    ensures
        is_ranked(scored_at_least(hs, min_score)),
        forall|h: Hit| #[trigger] scored_at_least(hs, min_score).contains(h) <==> (hs.contains(h)
            && h.2 >= min_score),
    decreases hs.len(),
{
    if hs.len() > 0 {
        let init = hs.drop_last();
        assert(is_ranked(init)) by {
            assert forall|i: int, j: int| 0 <= i < j < init.len() implies (#[trigger] init[i]).2 >= (
            #[trigger] init[j]).2 by {
                assert(hs[i].2 >= hs[j].2);
            }
        }
        lemma_filter_keeps_ranking(init, min_score);
        let rest = scored_at_least(init, min_score);
        let h = hs.last();
        if h.2 >= min_score {
            let out = rest.push(h);
            assert forall|i: int, j: int| 0 <= i < j < out.len() implies (#[trigger] out[i]).2 >= (
            #[trigger] out[j]).2 by {
                if j == rest.len() {
                    assert(rest.contains(out[i]));
                    let k = choose|k: int| 0 <= k < init.len() && init[k] == out[i];
                    assert(hs[k].2 >= hs[hs.len() - 1].2);
                } else {
                    assert(rest[i].2 >= rest[j].2);
                }
            }
        }
        assert forall|x: Hit| #[trigger] scored_at_least(hs, min_score).contains(x) <==> (hs.contains(x)
            && x.2 >= min_score) by {
            if hs.contains(x) {
                let k = choose|k: int| 0 <= k < hs.len() && hs[k] == x;
                if k < init.len() {
                    assert(init[k] == x);
                }
            }
            if init.contains(x) {
                let k = choose|k: int| 0 <= k < init.len() && init[k] == x;
                assert(hs[k] == x);
            }
            if h.2 >= min_score {
                let out = rest.push(h);
                if out.contains(x) {
                    let k = choose|k: int| 0 <= k < out.len() && out[k] == x;
                    if k < rest.len() {
                        assert(rest[k] == x);
                    }
                }
                if rest.contains(x) {
                    let k = choose|k: int| 0 <= k < rest.len() && rest[k] == x;
                    assert(out[k] == x);
                }
                if x == h {
                    assert(out[rest.len() as int] == x);
                }
            }
        }
    }
}

impl SzEngineGrpc {
    /// Parses the reply of `search_by_attributes` into [`SearchResults`]:
    /// the matches of its `RESOLVED_ENTITIES` ranked by score, best first.
    /// A reply that does not parse as JSON gives a `General` error (code 0).
    pub fn search_parsed(raw_json: String) -> (r: Result<SearchResults, SzError>)
        ensures
            match serde_json_from_str(raw_json@) {
                Ok(doc) => r matches Ok(results) && hits(results.entities@) == rank_by_score(
                    search_hits(doc),
                ) && results.raw_json@ == raw_json@,
                Err(err) => r matches Err(e) && e.is(
                    SzErrorKind::General,
                    0,
                    json_failure_text("search results"@, err),
                ),
            },
    {
        match parse_response("search results", raw_json.as_str()) {
            Ok(doc) => Ok(SearchResults::from_document(&doc, raw_json)),
            Err(e) => Err(e),
        }
    }

    /// The entity that `search_and_resolve` fetches, read from the reply of
    /// `search_by_attributes`: the `ENTITY.RESOLVED_ENTITY.ENTITY_ID` of the
    /// first entry of `RESOLVED_ENTITIES`, or `None` when there is none. A
    /// reply that does not parse as JSON gives a `General` error (code 0).
    pub fn search_and_resolve_target(search_result: &str) -> (r: Result<Option<i64>, SzError>)
        ensures
            match serde_json_from_str(search_result@) {
                Ok(doc) => r == Ok::<Option<i64>, SzError>(top_entity_id(doc)),
                Err(err) => r matches Err(e) && e.is(
                    SzErrorKind::General,
                    0,
                    json_failure_text("search result"@, err),
                ),
            },
    {
        let doc = match parse_response("search result", search_result) {
            Ok(doc) => doc,
            Err(e) => return Err(e),
        };
        let first = match doc.get("RESOLVED_ENTITIES") {
            Some(list) => match list.as_array() {
                Some(entries) => if entries.len() > 0 {
                    Some(&entries[0])
                } else {
                    None
                },
                None => None,
            },
            None => None,
        };
        let resolved = get_opt(get_opt(first, "ENTITY"), "RESOLVED_ENTITY");
        match get_opt(resolved, "ENTITY_ID") {
            Some(v) => Ok(v.as_i64()),
            None => Ok(None),
        }
    }
}

/// The entity identifier of the top entry of a search result document:
/// `RESOLVED_ENTITIES[0].ENTITY.RESOLVED_ENTITY.ENTITY_ID`, if there is one.
pub open spec fn top_entity_id(doc: Json) -> Option<i64> {
    let first = match json_array(json_get(doc, "RESOLVED_ENTITIES"@)) {
        Some(entries) => if entries.len() > 0 {
            Some(entries[0])
        } else {
            None
        },
        None => None,
    };
    json_i64(json_get_opt(json_get_opt(json_get_opt(first, "ENTITY"@), "RESOLVED_ENTITY"@), "ENTITY_ID"@))
}

// ---------------------------------------------------------------------
// Batches
// ---------------------------------------------------------------------

/// The failures whose error is retryable, in order.
pub open spec fn retryable_failures(errors: Seq<(String, SzError)>) -> Seq<(String, SzError)>
    decreases errors.len(),
{
    if errors.len() == 0 {
        Seq::empty()
    } else {
        let rest = retryable_failures(errors.drop_last());
        if is_retryable_kind(errors.last().1.spec_kind()) {
            rest.push(errors.last())
        } else {
            rest
        }
    }
}

/// `true` for the failures whose error is transient: a database deadlock
/// or lock timeout, a lost database connection or an exceeded retry
/// timeout.
pub open spec fn has_transient_error(failure: (String, SzError)) -> bool {
    failure.1.spec_kind() == SzErrorKind::DatabaseTransient || failure.1.spec_kind()
        == SzErrorKind::DatabaseConnectionLost || failure.1.spec_kind()
        == SzErrorKind::RetryTimeoutExceeded
}

/// The retryable failures of a batch are exactly its failures with a
/// transient error, in their order: every one kept has such an error, and
/// every failure with such an error is kept.
pub proof fn lemma_retryable_failures(errors: Seq<(String, SzError)>)
    ensures
        retryable_failures(errors) == errors.filter(|p: (String, SzError)| has_transient_error(p)),
        forall|i: int|
            0 <= i < retryable_failures(errors).len() ==> has_transient_error(
                #[trigger] retryable_failures(errors)[i],
            ),
    decreases errors.len(),
{
    reveal(Seq::filter);
    if errors.len() > 0 {
        lemma_retryable_failures(errors.drop_last());
        assert(is_retryable_kind(errors.last().1.spec_kind()) == has_transient_error(errors.last()));
        assert(errors.filter(|p: (String, SzError)| has_transient_error(p)) == {
            let rest = errors.drop_last().filter(|p: (String, SzError)| has_transient_error(p));
            if has_transient_error(errors.last()) {
                rest.push(errors.last())
            } else {
                rest
            }
        });
    } else {
        assert(errors.filter(|p: (String, SzError)| has_transient_error(p)) =~= errors);
    }
    errors.filter_lemma(|p: (String, SzError)| has_transient_error(p));
}

/// Result of a batch of record operations: all records are attempted, and
/// the failed ones are listed with their errors.
#[derive(Debug)]
pub struct BatchResult {
    /// Number of records successfully processed.
    pub successes: u32,
    /// Records that failed, as `(record_id, error)` pairs, in the order
    /// they were attempted.
    pub errors: Vec<(String, SzError)>,
}

impl Default for BatchResult {
    /// An empty result: no successes, no errors.
    fn default() -> (r: Self)
        ensures
            r.successes == 0,
            r.errors@.len() == 0,
    {
        BatchResult { successes: 0, errors: Vec::new() }
    }
}

impl<'a> IntoIterator for &'a BatchResult {
    type Item = &'a (String, SzError);
    type IntoIter = std::slice::Iter<'a, (String, SzError)>;

    /// Iterates over the `(record_id, error)` pairs of the failed records,
    /// in order.
    fn into_iter(self) -> (it: Self::IntoIter)
        ensures
            vstd::std_specs::iter::IteratorSpec::remaining(&it) == self.errors@.as_ref(),
            vstd::std_specs::iter::IteratorSpec::decrease(&it) is Some,
    {
        self.errors.iter()
    }
}

impl BatchResult {
    /// Records the outcome of the operation on the record `record_id`: a
    /// success is counted, a failure is listed with its error. Either way
    /// the batch's total grows by one.
    pub fn record(&mut self, record_id: &str, outcome: Result<String, SzError>)
        requires
            old(self).successes < u32::MAX,
        ensures
            final(self).successes + final(self).errors@.len() == old(self).successes + old(
                self,
            ).errors@.len() + 1,
            match outcome {
                Ok(_) => final(self).successes == old(self).successes + 1 && final(self).errors@
                    == old(self).errors@,
                Err(e) => final(self).successes == old(self).successes && final(self).errors@.len()
                    == old(self).errors@.len() + 1 && final(self).errors@.drop_last()
                    == old(self).errors@ && final(self).errors@.last().0@ == record_id@
                    && final(self).errors@.last().1 == e,
            },
    {
        match outcome {
            Ok(_) => {
                self.successes = self.successes + 1;
            },
            Err(e) => {
                self.errors.push((record_id.to_owned(), e));
                proof {
                    assert(self.errors@.drop_last() =~= old(self).errors@);
                }
            },
        }
    }

    /// Returns `true` if all records were processed successfully.
    pub fn is_ok(&self) -> (b: bool)
        ensures
            b == (self.errors@.len() == 0),
    {
        self.errors.is_empty()
    }

    /// Returns the total number of records attempted (successes plus
    /// failures).
    pub fn total(&self) -> (n: usize)
        requires
            self.successes + self.errors@.len() <= usize::MAX,
        ensures
            n == self.successes + self.errors@.len(),
    {
        self.successes as usize + self.errors.len()
    }

    /// Returns the failures whose error is retryable (transient), in order.
    pub fn retryable_errors(&self) -> (r: Vec<&(String, SzError)>)
        ensures
            r@.map_values(|p: &(String, SzError)| *p) == retryable_failures(self.errors@),
    {
        let mut r: Vec<&(String, SzError)> = Vec::new();
        let mut i: usize = 0;
        while i < self.errors.len()
            invariant
                i <= self.errors@.len(),
                r@.map_values(|p: &(String, SzError)| *p) == retryable_failures(
                    self.errors@.take(i as int),
                ),
            decreases self.errors@.len() - i,
        {
            proof {
                assert(self.errors@.take(i + 1).drop_last() =~= self.errors@.take(i as int));
            }
            if is_retryable(&self.errors[i].1) {
                r.push(&self.errors[i]);
                proof {
                    assert(r@.map_values(|p: &(String, SzError)| *p) =~= retryable_failures(
                        self.errors@.take(i as int),
                    ).push(self.errors@[i as int]));
                }
            }
            i += 1;
        }
        proof {
            assert(self.errors@.take(self.errors@.len() as int) =~= self.errors@);
        }
        r
    }

    /// Returns the record IDs of the failed records, in order.
    pub fn failed_record_ids(&self) -> (r: Vec<&str>)
        ensures
            r@.map_values(|s: &str| s@) == self.errors@.map_values(|p: (String, SzError)| p.0@),
    {
        let mut r: Vec<&str> = Vec::new();
        let mut i: usize = 0;
        while i < self.errors.len()
            invariant
                i <= self.errors@.len(),
                r@.len() == i,
                forall|j: int| 0 <= j < i ==> (#[trigger] r@[j])@ == self.errors@[j].0@,
            decreases self.errors@.len() - i,
        {
            r.push(self.errors[i].0.as_str());
            i += 1;
        }
        proof {
            assert(r@.map_values(|s: &str| s@) =~= self.errors@.map_values(
                |p: (String, SzError)| p.0@,
            ));
        }
        r
    }

    /// The text shown for the result (its `Display` form):
    /// `N succeeded, M failed`.
    pub fn display(&self) -> (s: String)
        ensures
            s@ == decimal_text(self.successes as int) + " succeeded, "@ + decimal_text(
                self.errors@.len() as int,
            ) + " failed"@,
    {
        let ok = decimal(self.successes as i128);
        let failed = decimal(self.errors.len() as i128);
        let s = concat(&[ok.as_str(), " succeeded, ", failed.as_str(), " failed"]);
        proof {
            reveal_with_fuel(crate::text::concat_text, 5);
        }
        s
    }
}

// ---------------------------------------------------------------------
// Redo processing
// ---------------------------------------------------------------------

/// Summary of a redo processing run.
#[derive(Debug)]
pub struct RedoSummary {
    /// Number of redo records successfully processed.
    pub processed: u32,
    /// Number of redo records that failed to process.
    pub failed: u32,
    /// Errors from failed redo records.
    pub errors: Vec<SzError>,
}

impl RedoSummary {
    /// Returns `true` if all redo records were processed successfully (no
    /// errors were collected).
    pub fn is_ok(&self) -> (b: bool)
        ensures
            b == (self.errors@.len() == 0),
    {
        self.errors.is_empty()
    }

    /// Returns the total number of redo records attempted.
    pub fn total(&self) -> (n: u32)
        requires
            self.processed + self.failed <= u32::MAX,
        ensures
            n == self.processed + self.failed,
    {
        self.processed + self.failed
    }

    /// Returns `true` if any redo record failed (an error was collected).
    pub fn has_failures(&self) -> (b: bool)
        ensures
            b == (self.errors@.len() > 0),
    {
        !self.errors.is_empty()
    }

    /// The text shown for the summary (its `Display` form):
    /// `Redo: N processed, M failed`.
    pub fn display(&self) -> (s: String)
        ensures
            s@ == "Redo: "@ + decimal_text(self.processed as int) + " processed, "@ + decimal_text(
                self.failed as int,
            ) + " failed"@,
    {
        let ok = decimal(self.processed as i128);
        let failed = decimal(self.failed as i128);
        let s = concat(&["Redo: ", ok.as_str(), " processed, ", failed.as_str(), " failed"]);
        proof {
            reveal_with_fuel(crate::text::concat_text, 6);
        }
        s
    }
}

/// The next call of a redo run.
#[derive(Debug, Clone, PartialEq, Eq)]
pub enum RedoAction {
    /// Ask how many redo records are pending (`count_redo_records`).
    CountRedoRecords,
    /// Fetch the next redo record (`get_redo_record`).
    GetRedoRecord,
    /// Process this redo record (`process_redo_record`).
    ProcessRedoRecord(String),
    /// The run is over: take the summary.
    Finish,
}

/// What a call of a redo run gave back.
#[derive(Debug)]
pub enum RedoEvent {
    /// The number of pending redo records.
    Counted(i64),
    /// The fetched redo record.
    Fetched(String),
    /// The outcome of processing a redo record.
    Processed(Result<String, SzError>),
}

/// A run that drains the redo queue: it asks for the pending count, stops
/// when it is zero, fetches a record, stops when it is empty, processes it
/// and starts again. Failures to process a record are collected, not
/// returned; failures of the other two calls end the run with that error,
/// and are the caller's to return.
#[derive(Debug)]
pub struct RedoDrain {
    processed: u32,
    failed: u32,
    errors: Vec<SzError>,
}

impl RedoDrain {
    #[verifier::type_invariant]
    spec fn errors_match_failures(self) -> bool {
        self.errors@.len() == self.failed
    }

    /// Number of redo records processed so far.
    pub closed spec fn spec_processed(&self) -> u32 {
        self.processed
    }

    /// Number of redo records that failed so far.
    pub closed spec fn spec_failed(&self) -> u32 {
        self.failed
    }

    /// The errors collected so far, in order.
    pub closed spec fn spec_errors(&self) -> Seq<SzError> {
        self.errors@
    }

    /// Starts a run, with nothing processed; its first call is
    /// [`RedoAction::CountRedoRecords`].
    pub fn start() -> (r: (RedoDrain, RedoAction))
        ensures
            r.0.spec_processed() == 0,
            r.0.spec_failed() == 0,
            r.0.spec_errors().len() == 0,
            r.1 == RedoAction::CountRedoRecords,
    {
        (RedoDrain { processed: 0, failed: 0, errors: Vec::new() }, RedoAction::CountRedoRecords)
    }

    /// Number of redo records processed so far.
    pub fn processed(&self) -> (n: u32)
        ensures
            n == self.spec_processed(),
    {
        self.processed
    }

    /// Number of redo records that failed so far.
    pub fn failed(&self) -> (n: u32)
        ensures
            n == self.spec_failed(),
    {
        self.failed
    }

    /// Takes in what the last call gave back and returns the next call: a
    /// count of zero or an empty record ends the run, a positive (or
    /// negative) count fetches a record, a fetched record is processed, and
    /// a processed record (whatever the outcome) is counted and followed by
    /// a new count.
    pub fn next(&mut self, event: RedoEvent) -> (action: RedoAction)
        requires
            event matches RedoEvent::Processed(Ok(_)) ==> old(self).spec_processed() < u32::MAX,
            event matches RedoEvent::Processed(Err(_)) ==> old(self).spec_failed() < u32::MAX,
        ensures
            match event {
                RedoEvent::Counted(n) => {
                    &&& action == if n == 0 {
                        RedoAction::Finish
                    } else {
                        RedoAction::GetRedoRecord
                    }
                    &&& *final(self) == *old(self)
                },
                RedoEvent::Fetched(record) => {
                    &&& action == if record@.len() == 0 {
                        RedoAction::Finish
                    } else {
                        RedoAction::ProcessRedoRecord(record)
                    }
                    &&& *final(self) == *old(self)
                },
                RedoEvent::Processed(Ok(_)) => {
                    &&& action == RedoAction::CountRedoRecords
                    &&& final(self).spec_processed() == old(self).spec_processed() + 1
                    &&& final(self).spec_failed() == old(self).spec_failed()
                    &&& final(self).spec_errors() == old(self).spec_errors()
                },
                RedoEvent::Processed(Err(e)) => {
                    &&& action == RedoAction::CountRedoRecords
                    &&& final(self).spec_processed() == old(self).spec_processed()
                    &&& final(self).spec_failed() == old(self).spec_failed() + 1
                    &&& final(self).spec_errors() == old(self).spec_errors().push(e)
                },
            },
    {
        proof {
            use_type_invariant(&*self);
        }
        match event {
            RedoEvent::Counted(n) => if n == 0 {
                RedoAction::Finish
            } else {
                RedoAction::GetRedoRecord
            },
            RedoEvent::Fetched(record) => if record.as_str().is_empty() {
                RedoAction::Finish
            } else {
                RedoAction::ProcessRedoRecord(record)
            },
            RedoEvent::Processed(Ok(_)) => {
                self.processed = self.processed + 1;
                RedoAction::CountRedoRecords
            },
            RedoEvent::Processed(Err(e)) => {
                let mut taken = RedoDrain { processed: 0, failed: 0, errors: Vec::new() };
                std::mem::swap(&mut taken, self);
                proof {
                    use_type_invariant(&taken);
                }
                let RedoDrain { processed, failed, mut errors } = taken;
                errors.push(e);
                *self = RedoDrain { processed, failed: failed + 1, errors };
                RedoAction::CountRedoRecords
            },
        }
    }

    /// Ends the run and returns its summary; as many errors as failures.
    pub fn finish(self) -> (s: RedoSummary)
        ensures
            s.processed == self.spec_processed(),
            s.failed == self.spec_failed(),
            s.errors@ == self.spec_errors(),
            s.errors@.len() == s.failed,
    {
        proof {
            use_type_invariant(&self);
        }
        RedoSummary { processed: self.processed, failed: self.failed, errors: self.errors }
    }
}

// ---------------------------------------------------------------------
// Streamed exports
// ---------------------------------------------------------------------

/// Extracts the payload text of a streamed export reply.
pub trait StreamExportChunk {
    /// Consumes the reply and returns its payload.
    fn into_result(self) -> String;
}

/// The chunks of a streamed export, joined in the order they arrive, and
/// how many have arrived.
#[derive(Debug)]
pub struct ExportCollector {
    text: String,
    chunks: u64,
}

impl ExportCollector {
    /// The text collected so far.
    pub closed spec fn spec_text(&self) -> Seq<char> {
        self.text@
    }

    /// The number of chunks collected so far.
    pub closed spec fn spec_chunks(&self) -> u64 {
        self.chunks
    }

    /// An empty collection.
    pub fn new() -> (c: ExportCollector)
        ensures
            c.spec_text().len() == 0,
            c.spec_chunks() == 0,
    {
        ExportCollector { text: String::new(), chunks: 0 }
    }

    /// Appends a chunk and counts it.
    pub fn push(&mut self, chunk: &str)
        requires
            old(self).spec_chunks() < u64::MAX,
        ensures
            final(self).spec_text() == old(self).spec_text() + chunk@,
            final(self).spec_chunks() == old(self).spec_chunks() + 1,
    {
        self.text.append(chunk);
        self.chunks = self.chunks + 1;
    }

    /// The number of chunks collected so far.
    pub fn chunks(&self) -> (n: u64)
        ensures
            n == self.spec_chunks(),
    {
        self.chunks
    }

    /// The collected text.
    pub fn into_text(self) -> (s: String)
        ensures
            s@ == self.spec_text(),
    {
        self.text
    }
}

} // verus!
