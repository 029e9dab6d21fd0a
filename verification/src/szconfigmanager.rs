//! The configuration manager: configurations made from the server's
//! replies, and the identifiers listed in its configuration registry.
use vstd::prelude::*;

use crate::json::{json_array, json_get, json_i64, serde_json_from_str, Json};
use crate::status::{json_failure_text, parse_response, rpc_error_is, rpc_outcome, RpcFailure};
use crate::szconfig::SzConfigGrpc;
use crate::szerrortypes::{SzError, SzErrorKind};

verus! {

/// The `CONFIG_ID` numbers of the registry entries, in order; entries
/// without one (or with one that is not an `i64`) are skipped.
pub open spec fn config_id_list(entries: Seq<Json>) -> Seq<i64>
    decreases entries.len(),
{
    if entries.len() == 0 {
        Seq::empty()
    } else {
        let rest = config_id_list(entries.drop_last());
        match json_i64(json_get(entries.last(), "CONFIG_ID"@)) {
            Some(id) => rest.push(id),
            None => rest,
        }
    }
}

/// The configuration identifiers of a configuration registry document:
/// the `CONFIG_ID` of each entry of its `CONFIGS` array (none when there is
/// no such array).
pub open spec fn registry_config_ids(doc: Json) -> Seq<i64> {
    match json_array(json_get(doc, "CONFIGS"@)) {
        Some(entries) => config_id_list(entries),
        None => Seq::empty(),
    }
}

/// The configuration manager: a handle on the gRPC channel, from which the
/// configurations it creates take theirs.
#[derive(Debug, Clone)]
pub struct SzConfigManagerGrpc {
    channel: tonic::transport::Channel,
}

impl SzConfigManagerGrpc {
    /// The channel handle the configuration manager sends its calls on.
    pub closed spec fn spec_channel(&self) -> tonic::transport::Channel {
        self.channel
    }

    /// Creates a configuration manager on `channel`.
    pub fn new(channel: tonic::transport::Channel) -> (c: Self)
        ensures
            c.spec_channel() == channel,
    {
        SzConfigManagerGrpc { channel }
    }

    /// Returns a clone of the underlying channel handle.
    pub fn channel(&self) -> tonic::transport::Channel {
        self.channel.clone()
    }

    /// The text shown for the component (its `Display` form): its type's
    /// name.
    pub fn display(&self) -> (s: String)
        ensures
            s@ == "SzConfigManagerGrpc"@,
    {
        "SzConfigManagerGrpc".to_owned()
    }

    /// Creates a configuration holding `config_definition`. This is local:
    /// no call is made.
    pub fn create_config_from_string(&self, config_definition: &str) -> (c: SzConfigGrpc)
        ensures
            c.definition() == config_definition@,
    {
        SzConfigGrpc::new(self.channel.clone(), config_definition.to_owned())
    }

    /// Creates a configuration from the outcome of a call of `method` whose
    /// reply is a configuration definition (`get_config` for
    /// `create_config_from_config_id`, `get_template_config` for
    /// `create_config_from_template`): the configuration holds the reply,
    /// or the failure is reported.
    pub fn create_config_from_reply(&self, outcome: Result<String, RpcFailure>, method: &str) -> (r:
        Result<SzConfigGrpc, SzError>)
        ensures
            match outcome {
                Ok(definition) => r matches Ok(c) && c.definition() == definition@,
                Err(failure) => r matches Err(e) && rpc_error_is(
                    e,
                    method@,
                    failure.code as int,
                    failure.message@,
                ),
            },
    {
        match rpc_outcome(outcome, method) {
            Ok(definition) => Ok(SzConfigGrpc::new(self.channel.clone(), definition)),
            Err(e) => Err(e),
        }
    }

    /// The configuration identifiers of a parsed configuration registry
    /// (see [`registry_config_ids`]).
    pub fn config_ids_from_registry(doc: &Json) -> (ids: Vec<i64>)
        ensures
            ids@ == registry_config_ids(*doc),
    {
        let mut ids: Vec<i64> = Vec::new();
        let entries = match doc.get("CONFIGS") {
            Some(list) => list.as_array(),
            None => None,
        };
        if let Some(entries) = entries {
            let mut i: usize = 0;
            while i < entries.len()
                invariant
                    i <= entries.len(),
                    json_array(json_get(*doc, "CONFIGS"@)) == Some(entries@),
                    ids@ == config_id_list(entries@.take(i as int)),
                decreases entries.len() - i,
            {
                proof {
                    assert(entries@.take(i + 1).drop_last() =~= entries@.take(i as int));
                    assert(entries@.take(i + 1).last() == entries@[i as int]);
                }
                let id = match entries[i].get("CONFIG_ID") {
                    Some(value) => value.as_i64(),
                    None => None,
                };
                if let Some(id) = id {
                    ids.push(id);
                }
                i += 1;
            }
            proof {
                assert(entries@.take(entries@.len() as int) =~= entries@);
            }
        }
        ids
    }

    /// Returns the identifiers of the registered configurations, read from
    /// a configuration registry (the reply of `get_config_registry`): the
    /// `CONFIG_ID` of each entry of its `CONFIGS` array. A registry that
    /// does not parse as JSON gives a `General` error (code 0).
    pub fn get_config_ids(registry_json: &str) -> (r: Result<Vec<i64>, SzError>)
        ensures
            match serde_json_from_str(registry_json@) {
                Ok(doc) => r matches Ok(ids) && ids@ == registry_config_ids(doc),
                Err(err) => r matches Err(e) && e.is(
                    SzErrorKind::General,
                    0,
                    json_failure_text("config registry"@, err),
                ),
            },
    {
        match parse_response("config registry", registry_json) {
            Ok(doc) => Ok(Self::config_ids_from_registry(&doc)),
            Err(e) => Err(e),
        }
    }
}

} // verus!
