//! A Senzing configuration held by the client: its definition, what the
//! server's replies do to it, and the data sources it registers.
//!
//! The server is stateless: every request carries the configuration
//! definition, and the replies of the calls that change the configuration
//! carry the new definition. [`SzConfigGrpc`] holds the definition and
//! replaces it only with the definition of a successful reply.
use vstd::prelude::*;

use crate::json::{json_array, json_get, json_str, serde_json_from_str, Json};
use crate::status::{json_failure_text, parse_response, rpc_error_is, rpc_outcome, RpcFailure};
use crate::szerrortypes::{SzError, SzErrorKind};
use crate::text::{
    is_text_less, join, join_text, lemma_text_less_asymmetric, lemma_text_less_irreflexive,
    lemma_text_less_total, lemma_text_less_transitive, text_less, texts,
};

verus! {

broadcast use vstd::string::group_string_axioms;

/// The `DSRC_CODE` strings of the registry entries, in order; entries
/// without one are skipped.
pub open spec fn dsrc_codes(entries: Seq<Json>) -> Seq<Seq<char>>
    decreases entries.len(),
{
    if entries.len() == 0 {
        Seq::empty()
    } else {
        let rest = dsrc_codes(entries.drop_last());
        match json_str(json_get(entries.last(), "DSRC_CODE"@)) {
            Some(code) => rest.push(code),
            None => rest,
        }
    }
}

/// The data sources named by a data source registry document: the
/// `DSRC_CODE` of each entry of its `DATA_SOURCES` array (none when there
/// is no such array).
pub open spec fn registry_data_sources(doc: Json) -> Seq<Seq<char>> {
    match json_array(json_get(doc, "DATA_SOURCES"@)) {
        Some(entries) => dsrc_codes(entries),
        None => Seq::empty(),
    }
}

/// What the data source functions report for the registry text
/// `registry_json`: its data sources, or the parse error's message.
pub open spec fn parsed_data_sources(registry_json: Seq<char>) -> Result<Seq<Seq<char>>, Seq<char>> {
    match serde_json_from_str(registry_json) {
        Ok(doc) => Ok(registry_data_sources(doc)),
        Err(err) => Err(json_failure_text("data source registry"@, err)),
    }
}

/// `true` when `r` reports `expected`: the value `ok` maps to when it is
/// `Ok`, and a `General` error with code 0 and its message when it is `Err`.
pub open spec fn reports<T>(r: Result<T, SzError>, expected: Result<Seq<Seq<char>>, Seq<char>>, ok: spec_fn(Seq<Seq<char>>, T) -> bool) -> bool {
    match expected {
        Ok(sources) => r matches Ok(v) && ok(sources, v),
        Err(message) => r matches Err(e) && e.is(SzErrorKind::General, 0, message),
    }
}

/// `true` when `s` is in increasing order with no repetition.
pub open spec fn strictly_sorted(s: Seq<Seq<char>>) -> bool {
    forall|i: int, j: int| 0 <= i < j < s.len() ==> text_less(#[trigger] s[i], #[trigger] s[j])
}

/// `true` when `d` lists, in increasing order and once each, the texts
/// that occur in `a` and not in `b`.
pub open spec fn is_sorted_difference(d: Seq<Seq<char>>, a: Seq<Seq<char>>, b: Seq<Seq<char>>) -> bool {
    &&& strictly_sorted(d)
    &&& forall|x: Seq<char>| #[trigger] d.contains(x) <==> (a.contains(x) && !b.contains(x))
}

/// The texts of `wanted` that do not occur in `existing`, each once, in
/// the order of their first occurrence in `wanted`.
pub open spec fn missing_sources(existing: Seq<Seq<char>>, wanted: Seq<Seq<char>>) -> Seq<Seq<char>>
    decreases wanted.len(),
{
    if wanted.len() == 0 {
        Seq::empty()
    } else {
        let rest = missing_sources(existing, wanted.drop_last());
        if existing.contains(wanted.last()) || rest.contains(wanted.last()) {
            rest
        } else {
            rest.push(wanted.last())
        }
    }
}

/// The missing sources are exactly the wanted texts that `existing` lacks,
/// each once: as many as there are distinct such texts.
pub proof fn lemma_missing_sources(existing: Seq<Seq<char>>, wanted: Seq<Seq<char>>)
    ensures
        missing_sources(existing, wanted).no_duplicates(),
        forall|x: Seq<char>| #[trigger]
            missing_sources(existing, wanted).contains(x) <==> (wanted.contains(x)
                && !existing.contains(x)),
        missing_sources(existing, wanted).to_set() == wanted.to_set().difference(
            existing.to_set(),
        ),
        missing_sources(existing, wanted).len() == wanted.to_set().difference(
            existing.to_set(),
        ).len(),
    decreases wanted.len(),
{
    let m = missing_sources(existing, wanted);
    if wanted.len() > 0 {
        let init = wanted.drop_last();
        let last = wanted.last();
        lemma_missing_sources(existing, init);
        let rest = missing_sources(existing, init);
        assert forall|x: Seq<char>| #[trigger] wanted.contains(x) <==> (init.contains(x) || x == last) by {
            if wanted.contains(x) {
                let k = choose|k: int| 0 <= k < wanted.len() && wanted[k] == x;
                if k < init.len() {
                    assert(init[k] == x);
                }
            }
            if init.contains(x) {
                let k = choose|k: int| 0 <= k < init.len() && init[k] == x;
                assert(wanted[k] == x);
            }
            if x == last {
                assert(wanted[wanted.len() - 1] == x);
            }
        }
        if !(existing.contains(last) || rest.contains(last)) {
            let pushed = rest.push(last);
            assert forall|x: Seq<char>| #[trigger] pushed.contains(x) <==> (rest.contains(x) || x == last) by {
                if pushed.contains(x) {
                    let k = choose|k: int| 0 <= k < pushed.len() && pushed[k] == x;
                    if k < rest.len() {
                        assert(rest[k] == x);
                    }
                }
                if rest.contains(x) {
                    let k = choose|k: int| 0 <= k < rest.len() && rest[k] == x;
                    assert(pushed[k] == x);
                }
                if x == last {
                    assert(pushed[rest.len() as int] == x);
                }
            }
            assert(pushed.no_duplicates()) by {
                assert forall|i: int, j: int| 0 <= i < pushed.len() && 0 <= j < pushed.len() && i != j implies pushed[i] != pushed[j] by {
                    if i == rest.len() {
                        assert(rest.contains(pushed[j]));
                    } else if j == rest.len() {
                        assert(rest.contains(pushed[i]));
                    }
                }
            }
        }
    }
    assert(m.to_set() =~= wanted.to_set().difference(existing.to_set()));
    m.unique_seq_to_set();
}

/// A Senzing configuration: a handle on the gRPC channel and the current
/// configuration definition.
///
/// Cloning copies the definition: the configuration and its clone change
/// independently afterwards.
#[derive(Debug)]
pub struct SzConfigGrpc {
    channel: tonic::transport::Channel,
    config_definition: String,
}

/// The reply of a successful `register_data_source` call: the new
/// configuration definition and the call's result text.
#[derive(Debug, Clone, PartialEq, Eq)]
pub struct RegisterDataSourceReply {
    pub config_definition: String,
    pub result: String,
}

impl Clone for SzConfigGrpc {
    fn clone(&self) -> (c: Self)
        ensures
            c.definition() == self.definition(),
    {
        SzConfigGrpc { channel: self.channel.clone(), config_definition: self.config_definition.clone() }
    }
}

impl SzConfigGrpc {
    /// The current configuration definition.
    pub closed spec fn definition(&self) -> Seq<char> {
        self.config_definition@
    }

    /// The channel handle the configuration sends its calls on.
    pub closed spec fn spec_channel(&self) -> tonic::transport::Channel {
        self.channel
    }

    /// Creates a configuration with the given definition on `channel`.
    pub fn new(channel: tonic::transport::Channel, config_definition: String) -> (c: Self)
        ensures
            c.definition() == config_definition@,
            c.spec_channel() == channel,
    {
        SzConfigGrpc { channel, config_definition }
    }

    /// Returns a clone of the underlying channel handle.
    pub fn channel(&self) -> tonic::transport::Channel {
        self.channel.clone()
    }

    /// The text shown for the component (its `Display` form): its type's
    /// name.
    pub fn display(&self) -> (s: String)
        ensures
            s@ == "SzConfigGrpc"@,
    {
        "SzConfigGrpc".to_owned()
    }

    /// The current definition, as the requests carry it.
    pub fn config_definition(&self) -> (s: &str)
        ensures
            s@ == self.definition(),
    {
        self.config_definition.as_str()
    }

    /// Returns the current definition. This is local: no call is made,
    /// and it always succeeds.
    pub fn export_config(&self) -> (r: Result<String, SzError>)
        ensures
            r matches Ok(s) && s@ == self.definition(),
    {
        Ok(self.config_definition.clone())
    }

    /// Applies the outcome of a `register_data_source` call: on success the
    /// definition becomes the reply's and the reply's result is returned;
    /// on failure the definition is kept and the failure is reported as
    /// [`grpc_to_sz_error`](crate::status::grpc_to_sz_error) reports it.
    pub fn apply_register_data_source(
        &mut self,
        outcome: Result<RegisterDataSourceReply, RpcFailure>,
    ) -> (r: Result<String, SzError>)
        ensures
            match outcome {
                Ok(reply) => final(self).definition() == reply.config_definition@ && r == Ok::<
                    String,
                    SzError,
                >(reply.result),
                Err(failure) => {
                    &&& final(self).definition() == old(self).definition()
                    &&& r matches Err(e) && rpc_error_is(
                        e,
                        "register_data_source"@,
                        failure.code as int,
                        failure.message@,
                    )
                },
            },
    {
        match rpc_outcome(outcome, "register_data_source") {
            Ok(reply) => {
                self.config_definition = reply.config_definition;
                Ok(reply.result)
            },
            Err(e) => Err(e),
        }
    }

    /// Applies the outcome of an `unregister_data_source` call, whose reply
    /// is the new definition: on success the definition becomes it; on
    /// failure the definition is kept and the failure is reported.
    pub fn apply_unregister_data_source(&mut self, outcome: Result<String, RpcFailure>) -> (r: Result<
        (),
        SzError,
    >)
        ensures
            match outcome {
                Ok(definition) => final(self).definition() == definition@ && r is Ok,
                Err(failure) => {
                    &&& final(self).definition() == old(self).definition()
                    &&& r matches Err(e) && rpc_error_is(
                        e,
                        "unregister_data_source"@,
                        failure.code as int,
                        failure.message@,
                    )
                },
            },
    {
        match rpc_outcome(outcome, "unregister_data_source") {
            Ok(definition) => {
                self.config_definition = definition;
                Ok(())
            },
            Err(e) => Err(e),
        }
    }

    /// The data sources named by a parsed data source registry document
    /// (see [`registry_data_sources`]).
    pub fn data_sources_from_registry(doc: &Json) -> (v: Vec<String>)
        ensures
            texts(v@) == registry_data_sources(*doc),
    {
        let mut v: Vec<String> = Vec::new();
        let entries = match doc.get("DATA_SOURCES") {
            Some(list) => list.as_array(),
            None => None,
        };
        if let Some(entries) = entries {
            let mut i: usize = 0;
            while i < entries.len()
                invariant
                    i <= entries.len(),
                    json_array(json_get(*doc, "DATA_SOURCES"@)) == Some(entries@),
                    texts(v@) == dsrc_codes(entries@.take(i as int)),
                decreases entries.len() - i,
            {
                proof {
                    assert(entries@.take(i + 1).drop_last() =~= entries@.take(i as int));
                    assert(entries@.take(i + 1).last() == entries@[i as int]);
                }
                let code = match entries[i].get("DSRC_CODE") {
                    Some(value) => value.as_str(),
                    None => None,
                };
                if let Some(code) = code {
                    v.push(code.clone());
                    proof {
                        assert(texts(v@) =~= dsrc_codes(entries@.take(i as int)).push(code@));
                    }
                }
                i += 1;
            }
            proof {
                assert(entries@.take(entries@.len() as int) =~= entries@);
            }
        }
        v
    }

    /// Returns the registered data source names of a data source registry
    /// (the reply of `get_data_source_registry`): the `DSRC_CODE` of each
    /// entry of its `DATA_SOURCES` array. A registry that does not parse as
    /// JSON gives a `General` error (code 0).
    pub fn get_data_sources(registry_json: &str) -> (r: Result<Vec<String>, SzError>)
        ensures
            reports(
                r,
                parsed_data_sources(registry_json@),
                |sources: Seq<Seq<char>>, v: Vec<String>| texts(v@) == sources,
            ),
    {
        match parse_response("data source registry", registry_json) {
            Ok(doc) => Ok(Self::data_sources_from_registry(&doc)),
            Err(e) => Err(e),
        }
    }

    /// Returns `true` if the registry names the data source `name`.
    pub fn contains_data_source(registry_json: &str, name: &str) -> (r: Result<bool, SzError>)
        ensures
            reports(
                r,
                parsed_data_sources(registry_json@),
                |sources: Seq<Seq<char>>, b: bool| b == sources.contains(name@),
            ),
    {
        match Self::get_data_sources(registry_json) {
            Ok(sources) => Ok(contains_text(&sources, name)),
            Err(e) => Err(e),
        }
    }

    /// Returns the number of data sources the registry names.
    pub fn data_source_count(registry_json: &str) -> (r: Result<usize, SzError>)
        ensures
            reports(
                r,
                parsed_data_sources(registry_json@),
                |sources: Seq<Seq<char>>, n: usize| n == sources.len(),
            ),
    {
        match Self::get_data_sources(registry_json) {
            Ok(sources) => Ok(sources.len()),
            Err(e) => Err(e),
        }
    }

    /// The data sources of `sources` that `add_data_sources` registers, in
    /// the order they are given: those the registry does not name already,
    /// each once however often it is given. Their number is the number of
    /// distinct new names, which `add_data_sources` reports as added once
    /// all of them are registered.
    pub fn data_sources_to_add(registry_json: &str, sources: &[&str]) -> (r: Result<
        Vec<String>,
        SzError,
    >)
        ensures
            reports(
                r,
                parsed_data_sources(registry_json@),
                (|existing: Seq<Seq<char>>, v: Vec<String>|
                    {
                        let wanted = sources@.map_values(|s: &str| s@);
                        &&& texts(v@) == missing_sources(existing, wanted)
                        &&& v@.len() == wanted.to_set().difference(existing.to_set()).len()
                    }),
            ),
    {
        let existing = match Self::get_data_sources(registry_json) {
            Ok(existing) => existing,
            Err(e) => return Err(e),
        };
        let ghost wanted = sources@.map_values(|s: &str| s@);
        let mut to_add: Vec<String> = Vec::new();
        let mut i: usize = 0;
        while i < sources.len()
            invariant
                i <= sources.len(),
                wanted == sources@.map_values(|s: &str| s@),
                texts(to_add@) == missing_sources(texts(existing@), wanted.take(i as int)),
            decreases sources.len() - i,
        {
            proof {
                assert(wanted.take(i + 1).drop_last() =~= wanted.take(i as int));
                assert(wanted.take(i + 1).last() == sources@[i as int]@);
            }
            if !contains_text(&existing, sources[i]) && !contains_text(&to_add, sources[i]) {
                to_add.push(sources[i].to_owned());
                proof {
                    assert(texts(to_add@) =~= missing_sources(texts(existing@), wanted.take(i as int)).push(sources@[i as int]@));
                }
            }
            i += 1;
        }
        proof {
            assert(wanted.take(sources@.len() as int) =~= wanted);
            lemma_missing_sources(texts(existing@), wanted);
        }
        Ok(to_add)
    }

    /// Compares the data sources of this configuration's registry
    /// (`registry_json`) with those of another's (`other_registry_json`):
    /// `added` lists those only this one names, `removed` those only the
    /// other names, each sorted and without repetition. The registry that
    /// does not parse is reported, this one's first.
    pub fn diff_data_sources(registry_json: &str, other_registry_json: &str) -> (r: Result<
        DataSourceDiff,
        SzError,
    >)
        ensures
            match (parsed_data_sources(registry_json@), parsed_data_sources(other_registry_json@)) {
                (Err(message), _) => r matches Err(e) && e.is(SzErrorKind::General, 0, message),
                (Ok(_), Err(message)) => r matches Err(e) && e.is(SzErrorKind::General, 0, message),
                (Ok(mine), Ok(theirs)) => r matches Ok(d) && d.is_diff_of(mine, theirs),
            },
    {
        let mine = match Self::get_data_sources(registry_json) {
            Ok(v) => v,
            Err(e) => return Err(e),
        };
        let theirs = match Self::get_data_sources(other_registry_json) {
            Ok(v) => v,
            Err(e) => return Err(e),
        };
        Ok(DataSourceDiff::between(&mine, &theirs))
    }
}

/// `true` when one of the strings of `v` is `x`.
pub fn contains_text(v: &Vec<String>, x: &str) -> (b: bool)
    ensures
        b == texts(v@).contains(x@),
{
    let wanted = x.to_owned();
    let mut i: usize = 0;
    while i < v.len()
        invariant
            i <= v.len(),
            wanted@ == x@,
            forall|j: int| 0 <= j < i ==> v@[j]@ != x@,
        decreases v.len() - i,
    {
        if v[i] == wanted {
            proof {
                assert(texts(v@)[i as int] == x@);
            }
            return true;
        }
        i += 1;
    }
    proof {
        if texts(v@).contains(x@) {
            let j = choose|j: int| 0 <= j < texts(v@).len() && texts(v@)[j] == x@;
            assert(v@[j]@ == x@);
        }
    }
    false
}

/// Inserts `x` into the sorted `out` at its place, unless it is there.
fn insert_sorted(out: &mut Vec<String>, x: String)
    requires
        strictly_sorted(texts(old(out)@)),
    ensures
        strictly_sorted(texts(final(out)@)),
        forall|y: Seq<char>| #[trigger]
            texts(final(out)@).contains(y) <==> (texts(old(out)@).contains(y) || y == x@),
{
    let ghost before = texts(out@);
    let mut i: usize = 0;
    while i < out.len() && is_text_less(out[i].as_str(), x.as_str())
        invariant
            i <= out.len(),
            before == texts(out@),
            forall|j: int| 0 <= j < i ==> text_less(#[trigger] before[j], x@),
        decreases out.len() - i,
    {
        i += 1;
    }
    if i < out.len() && out[i] == x {
        proof {
            assert(before[i as int] == x@);
        }
        return;
    }
    proof {
        if i < before.len() {
            lemma_text_less_total(before[i as int], x@);
        }
    }
    out.insert(i, x);
    proof {
        let after = texts(out@);
        assert(after =~= before.insert(i as int, x@));
        assert forall|p: int, q: int| 0 <= p < q < after.len() implies text_less(
            #[trigger] after[p],
            #[trigger] after[q],
        ) by {
            if q < i {
                assert(text_less(before[p], before[q]));
            } else if q == i {
                assert(after[p] == before[p]);
            } else if p == i {
                assert(after[q] == before[q - 1]);
                if q - 1 > i {
                    assert(text_less(before[i as int], before[q - 1]));
                    lemma_text_less_transitive(x@, before[i as int], before[q - 1]);
                }
            } else if p < i {
                assert(after[q] == before[q - 1]);
                assert(text_less(before[p], before[q - 1]));
            } else {
                assert(text_less(before[p - 1], before[q - 1]));
            }
        }
        assert forall|y: Seq<char>| #[trigger] after.contains(y) <==> (before.contains(y) || y == x@) by {
            if after.contains(y) {
                let k = choose|k: int| 0 <= k < after.len() && after[k] == y;
                if k < i {
                    assert(before[k] == y);
                } else if k > i {
                    assert(before[k - 1] == y);
                }
            }
            if before.contains(y) {
                let k = choose|k: int| 0 <= k < before.len() && before[k] == y;
                if k < i {
                    assert(after[k] == y);
                } else {
                    assert(after[k + 1] == y);
                }
            }
            if y == x@ {
                assert(after[i as int] == y);
            }
        }
    }
}

/// The texts that occur in `a` and not in `b`, sorted and once each.
fn sorted_difference(a: &Vec<String>, b: &Vec<String>) -> (d: Vec<String>)
    ensures
        is_sorted_difference(texts(d@), texts(a@), texts(b@)),
{
    let mut out: Vec<String> = Vec::new();
    let mut i: usize = 0;
    while i < a.len()
        invariant
            i <= a.len(),
            strictly_sorted(texts(out@)),
            forall|x: Seq<char>| #[trigger]
                texts(out@).contains(x) <==> (texts(a@).take(i as int).contains(x) && !texts(
                    b@,
                ).contains(x)),
        decreases a.len() - i,
    {
        let ghost taken = texts(a@).take(i as int);
        let ghost next = texts(a@).take(i + 1);
        proof {
            assert(next =~= taken.push(a@[i as int]@));
            assert forall|x: Seq<char>| #[trigger] next.contains(x) <==> (taken.contains(x) || x == a@[i as int]@) by {
                if next.contains(x) {
                    let k = choose|k: int| 0 <= k < next.len() && next[k] == x;
                    if k < i {
                        assert(taken[k] == x);
                    }
                }
                if taken.contains(x) {
                    let k = choose|k: int| 0 <= k < taken.len() && taken[k] == x;
                    assert(next[k] == x);
                }
                if x == a@[i as int]@ {
                    assert(next[i as int] == x);
                }
            }
        }
        if !contains_text(b, a[i].as_str()) {
            insert_sorted(&mut out, a[i].clone());
        }
        i += 1;
    }
    proof {
        assert(texts(a@).take(a@.len() as int) =~= texts(a@));
    }
    out
}

/// Differences between the data source registries of two configurations.
#[derive(Debug, Clone, PartialEq, Eq, PartialOrd, Ord, Hash)]
pub struct DataSourceDiff {
    /// Data sources present in this configuration but not in the other.
    pub added: Vec<String>,
    /// Data sources present in the other configuration but not in this one.
    pub removed: Vec<String>,
}

/// The text shown for a difference (its `Display` form): `no differences`,
/// or `added: a, b` and `removed: c` (each when not empty) joined by `; `.
pub open spec fn diff_text(added: Seq<Seq<char>>, removed: Seq<Seq<char>>) -> Seq<char> {
    if added.len() == 0 && removed.len() == 0 {
        "no differences"@
    } else if removed.len() == 0 {
        "added: "@ + join_text(added, ", "@)
    } else if added.len() == 0 {
        "removed: "@ + join_text(removed, ", "@)
    } else {
        "added: "@ + join_text(added, ", "@) + "; "@ + "removed: "@ + join_text(removed, ", "@)
    }
}

impl DataSourceDiff {
    /// `true` when this is the difference of the data sources `mine` and
    /// `theirs`: `added` is what only `mine` has and `removed` what only
    /// `theirs` has, each sorted and without repetition.
    pub open spec fn is_diff_of(&self, mine: Seq<Seq<char>>, theirs: Seq<Seq<char>>) -> bool {
        &&& is_sorted_difference(texts(self.added@), mine, theirs)
        &&& is_sorted_difference(texts(self.removed@), theirs, mine)
    }

    /// The difference between the data sources `mine` and `theirs`.
    pub fn between(mine: &Vec<String>, theirs: &Vec<String>) -> (d: DataSourceDiff)
        ensures
            d.is_diff_of(texts(mine@), texts(theirs@)),
    {
        DataSourceDiff { added: sorted_difference(mine, theirs), removed: sorted_difference(theirs, mine) }
    }

    /// Returns `true` if there are no differences.
    pub fn is_empty(&self) -> (b: bool)
        ensures
            b == (self.added@.len() == 0 && self.removed@.len() == 0),
    {
        self.added.is_empty() && self.removed.is_empty()
    }

    /// The text shown for the difference (its `Display` form); see
    /// [`diff_text`].
    pub fn display(&self) -> (s: String)
        ensures
            s@ == diff_text(texts(self.added@), texts(self.removed@)),
    {
        if self.is_empty() {
            return "no differences".to_owned();
        }
        let mut s = String::new();
        if !self.added.is_empty() {
            s.append("added: ");
            let names = join(&self.added, ", ");
            s.append(names.as_str());
        }
        if !self.removed.is_empty() {
            if !self.added.is_empty() {
                s.append("; ");
            }
            s.append("removed: ");
            let names = join(&self.removed, ", ");
            s.append(names.as_str());
        }
        s
    }
}

/// Two sorted sequences without repetition that hold the same texts are
/// the same sequence.
pub proof fn lemma_sorted_unique(x: Seq<Seq<char>>, y: Seq<Seq<char>>)
    requires
        strictly_sorted(x),
        strictly_sorted(y),
        forall|t: Seq<char>| x.contains(t) <==> y.contains(t),
    ensures
        x == y,
    decreases x.len(),
{
    if x.len() == 0 {
        if y.len() > 0 {
            assert(y.contains(y[0]));
        }
        assert(x =~= y);
    } else {
        assert(x.contains(x[0]));
        assert(y.len() > 0);
        assert(y.contains(y[0]));
        let i = choose|i: int| 0 <= i < y.len() && y[i] == x[0];
        let j = choose|j: int| 0 <= j < x.len() && x[j] == y[0];
        if i > 0 {
            assert(text_less(y[0], y[i]));
            if j > 0 {
                assert(text_less(x[0], x[j]));
                lemma_text_less_asymmetric(x[0], y[0]);
            } else {
                lemma_text_less_irreflexive(x[0]);
            }
        }
        assert(x[0] == y[0]);
        let xs = x.drop_first();
        let ys = y.drop_first();
        assert forall|t: Seq<char>| xs.contains(t) <==> ys.contains(t) by {
            if xs.contains(t) {
                let k = choose|k: int| 0 <= k < xs.len() && xs[k] == t;
                assert(text_less(x[0], x[k + 1]));
                lemma_text_less_irreflexive(t);
                assert(y.contains(t));
                let m = choose|m: int| 0 <= m < y.len() && y[m] == t;
                assert(m != 0);
                assert(ys[m - 1] == t);
            }
            if ys.contains(t) {
                let k = choose|k: int| 0 <= k < ys.len() && ys[k] == t;
                assert(text_less(y[0], y[k + 1]));
                lemma_text_less_irreflexive(t);
                assert(x.contains(t));
                let m = choose|m: int| 0 <= m < x.len() && x[m] == t;
                assert(m != 0);
                assert(xs[m - 1] == t);
            }
        }
        assert(strictly_sorted(xs)) by {
            assert forall|p: int, q: int| 0 <= p < q < xs.len() implies text_less(
                #[trigger] xs[p],
                #[trigger] xs[q],
            ) by {
                assert(text_less(x[p + 1], x[q + 1]));
            }
        }
        assert(strictly_sorted(ys)) by {
            assert forall|p: int, q: int| 0 <= p < q < ys.len() implies text_less(
                #[trigger] ys[p],
                #[trigger] ys[q],
            ) by {
                assert(text_less(y[p + 1], y[q + 1]));
            }
        }
        lemma_sorted_unique(xs, ys);
        assert(x =~= seq![x[0]] + xs);
        assert(y =~= seq![y[0]] + ys);
    }
}

/// Comparing two configurations the other way round swaps what was added
/// and what was removed.
pub proof fn lemma_diff_swapped(
    d: DataSourceDiff,
    swapped: DataSourceDiff,
    mine: Seq<Seq<char>>,
    theirs: Seq<Seq<char>>,
)
    requires
        d.is_diff_of(mine, theirs),
        swapped.is_diff_of(theirs, mine),
    ensures
        texts(d.added@) == texts(swapped.removed@),
        texts(d.removed@) == texts(swapped.added@),
{
    lemma_sorted_unique(texts(d.added@), texts(swapped.removed@));
    lemma_sorted_unique(texts(d.removed@), texts(swapped.added@));
}

/// A configuration compared with one that has the same data sources shows
/// no differences.
pub proof fn lemma_diff_same_sources_empty(d: DataSourceDiff, mine: Seq<Seq<char>>, theirs: Seq<Seq<char>>)
    requires
        d.is_diff_of(mine, theirs),
        forall|t: Seq<char>| mine.contains(t) <==> theirs.contains(t),
    ensures
        d.added@.len() == 0,
        d.removed@.len() == 0,
{
    if d.added@.len() > 0 {
        assert(texts(d.added@).contains(texts(d.added@)[0]));
    }
    if d.removed@.len() > 0 {
        assert(texts(d.removed@).contains(texts(d.removed@)[0]));
    }
}

} // verus!
