//! Diagnostics: the repository information and performance reports read
//! from the server's replies.
use vstd::prelude::*;

use crate::json::{
    i64_member_or_zero, json_array, json_get, json_i64_or_zero, serde_json_from_str, Json,
};
use crate::status::{json_failure_text, parse_response};
use crate::szerrortypes::{SzError, SzErrorKind};
use crate::text::{concat, decimal, decimal_text};

verus! {

broadcast use vstd::string::group_string_axioms;

/// The record count of a repository information document: the
/// `recordCount` of the first entry of its `dataStores` array, or 0.
pub open spec fn repository_record_count(doc: Json) -> i64 {
    match json_array(json_get(doc, "dataStores"@)) {
        Some(stores) => if stores.len() > 0 {
            json_i64_or_zero(Some(stores[0]), "recordCount"@)
        } else {
            0
        },
        None => 0,
    }
}

/// The diagnostic component: a handle on the gRPC channel.
#[derive(Debug, Clone)]
pub struct SzDiagnosticGrpc {
    channel: tonic::transport::Channel,
}

/// Parsed repository information.
#[derive(Debug, Clone, PartialEq, Eq, PartialOrd, Ord, Hash)]
pub struct RepositoryInfo {
    /// Total number of records in the repository (0 when the reply does
    /// not give it).
    pub record_count: i64,
    /// The raw JSON reply.
    pub raw_json: String,
}

/// Parsed performance report.
#[derive(Debug, Clone, PartialEq, Eq, PartialOrd, Ord, Hash)]
pub struct PerformanceReport {
    /// Records inserted per second during the test (0 when the reply does
    /// not give it).
    pub inserts_per_second: i64,
    /// The raw JSON reply.
    pub raw_json: String,
}

impl RepositoryInfo {
    /// The information of a parsed repository information document.
    pub fn from_document(doc: &Json, raw_json: String) -> (info: RepositoryInfo)
        ensures
            info.record_count == repository_record_count(*doc),
            info.raw_json@ == raw_json@,
    {
        let record_count = match doc.get("dataStores") {
            Some(stores) => match stores.as_array() {
                Some(list) => if list.len() > 0 {
                    i64_member_or_zero(&list[0], "recordCount")
                } else {
                    0
                },
                None => 0,
            },
            None => 0,
        };
        RepositoryInfo { record_count, raw_json }
    }

    /// The text shown for the information (its `Display` form):
    /// `Repository (N records)`.
    pub fn display(&self) -> (s: String)
        ensures
            s@ == "Repository ("@ + decimal_text(self.record_count as int) + " records)"@,
    {
        let n = decimal(self.record_count as i128);
        let s = concat(&["Repository (", n.as_str(), " records)"]);
        proof {
            reveal_with_fuel(crate::text::concat_text, 4);
        }
        s
    }
}

impl PerformanceReport {
    /// The report of a parsed performance document: its
    /// `numRecordsInsertedPerSecond`, or 0.
    pub fn from_document(doc: &Json, raw_json: String) -> (report: PerformanceReport)
        ensures
            report.inserts_per_second == json_i64_or_zero(
                Some(*doc),
                "numRecordsInsertedPerSecond"@,
            ),
            report.raw_json@ == raw_json@,
    {
        let inserts_per_second = i64_member_or_zero(doc, "numRecordsInsertedPerSecond");
        PerformanceReport { inserts_per_second, raw_json }
    }

    /// The text shown for the report (its `Display` form): `N inserts/sec`.
    pub fn display(&self) -> (s: String)
        ensures
            s@ == decimal_text(self.inserts_per_second as int) + " inserts/sec"@,
    {
        let n = decimal(self.inserts_per_second as i128);
        let s = concat(&[n.as_str(), " inserts/sec"]);
        proof {
            reveal_with_fuel(crate::text::concat_text, 3);
        }
        s
    }
}

impl SzDiagnosticGrpc {
    /// The channel handle the diagnostic component sends its calls on.
    pub closed spec fn spec_channel(&self) -> tonic::transport::Channel {
        self.channel
    }

    /// Creates a diagnostic component on `channel`.
    pub fn new(channel: tonic::transport::Channel) -> (c: Self)
        ensures
            c.spec_channel() == channel,
    {
        SzDiagnosticGrpc { channel }
    }

    /// Returns a clone of the underlying channel handle.
    pub fn channel(&self) -> tonic::transport::Channel {
        self.channel.clone()
    }

    /// The text shown for the component (its `Display` form): its type's
    /// name.
    pub fn display(&self) -> (s: String)
        ensures
            s@ == "SzDiagnosticGrpc"@,
    {
        "SzDiagnosticGrpc".to_owned()
    }

    /// Parses the reply of `get_repository_info` into a [`RepositoryInfo`];
    /// a reply that does not parse as JSON gives a `General` error (code 0).
    pub fn get_repository_info_parsed(raw_json: String) -> (r: Result<RepositoryInfo, SzError>)
        ensures
            match serde_json_from_str(raw_json@) {
                Ok(doc) => r matches Ok(info) && info.record_count == repository_record_count(doc)
                    && info.raw_json@ == raw_json@,
                Err(err) => r matches Err(e) && e.is(
                    SzErrorKind::General,
                    0,
                    json_failure_text("repository info"@, err),
                ),
            },
    {
        match parse_response("repository info", raw_json.as_str()) {
            Ok(doc) => Ok(RepositoryInfo::from_document(&doc, raw_json)),
            Err(e) => Err(e),
        }
    }

    /// Parses the reply of `check_repository_performance` into a
    /// [`PerformanceReport`]; a reply that does not parse as JSON gives a
    /// `General` error (code 0).
    pub fn get_performance_report(raw_json: String) -> (r: Result<PerformanceReport, SzError>)
        ensures
            match serde_json_from_str(raw_json@) {
                Ok(doc) => r matches Ok(report) && report.inserts_per_second == json_i64_or_zero(
                    Some(doc),
                    "numRecordsInsertedPerSecond"@,
                ) && report.raw_json@ == raw_json@,
                Err(err) => r matches Err(e) && e.is(
                    SzErrorKind::General,
                    0,
                    json_failure_text("performance report"@, err),
                ),
            },
    {
        match parse_response("performance report", raw_json.as_str()) {
            Ok(doc) => Ok(PerformanceReport::from_document(&doc, raw_json)),
            Err(e) => Err(e),
        }
    }
}

} // verus!
