//! Product information: the version and license details read from the
//! server's replies.
use vstd::prelude::*;

use crate::json::{
    i64_member_or_zero, json_i64_or_zero, json_str_or_empty, serde_json_from_str,
    str_member_or_empty, Json,
};
use crate::status::{json_failure_text, parse_response};
use crate::szerrortypes::{SzError, SzErrorKind};
use crate::text::concat;

verus! {

broadcast use vstd::string::group_string_axioms;

/// The product component: a handle on the gRPC channel.
#[derive(Debug, Clone)]
pub struct SzProductGrpc {
    channel: tonic::transport::Channel,
}

/// Parsed version information.
#[derive(Debug, Clone, PartialEq, Eq, PartialOrd, Ord, Hash)]
pub struct VersionInfo {
    /// The Senzing version (such as `4.0.0`).
    pub version: String,
    /// The full build version.
    pub build_version: String,
    /// The build number.
    pub build_number: String,
    /// The build date.
    pub build_date: String,
    /// The raw JSON reply.
    pub raw_json: String,
}

/// Parsed license information.
#[derive(Debug, Clone, PartialEq, Eq, PartialOrd, Ord, Hash)]
pub struct LicenseInfo {
    /// The licensed customer.
    pub customer: String,
    /// The license type (such as `EVAL` or `PRODUCTION`).
    pub license_type: String,
    /// The expiration date.
    pub expiration_date: String,
    /// The maximum number of records (0 when the reply does not give it).
    pub record_limit: i64,
    /// The raw JSON reply.
    pub raw_json: String,
}

impl VersionInfo {
    /// `true` when `self` holds what a version document `doc` gives: the
    /// string members `VERSION`, `BUILD_VERSION`, `BUILD_NUMBER` and
    /// `BUILD_DATE`, each empty when absent or not a string.
    pub open spec fn is_read_from(&self, doc: Json, raw_json: Seq<char>) -> bool {
        &&& self.version@ == json_str_or_empty(Some(doc), "VERSION"@)
        &&& self.build_version@ == json_str_or_empty(Some(doc), "BUILD_VERSION"@)
        &&& self.build_number@ == json_str_or_empty(Some(doc), "BUILD_NUMBER"@)
        &&& self.build_date@ == json_str_or_empty(Some(doc), "BUILD_DATE"@)
        &&& self.raw_json@ == raw_json
    }

    /// The version information of a parsed version document.
    pub fn from_document(doc: &Json, raw_json: String) -> (info: VersionInfo)
        ensures
            info.is_read_from(*doc, raw_json@),
    {
        VersionInfo {
            version: str_member_or_empty(doc, "VERSION"),
            build_version: str_member_or_empty(doc, "BUILD_VERSION"),
            build_number: str_member_or_empty(doc, "BUILD_NUMBER"),
            build_date: str_member_or_empty(doc, "BUILD_DATE"),
            raw_json,
        }
    }

    /// The text shown for the version (its `Display` form):
    /// `Senzing VERSION (build BUILD_NUMBER)`.
    pub fn display(&self) -> (s: String)
        ensures
            s@ == "Senzing "@ + self.version@ + " (build "@ + self.build_number@ + ")"@,
    {
        let s = concat(&["Senzing ", self.version.as_str(), " (build ", self.build_number.as_str(), ")"]);
        proof {
            reveal_with_fuel(crate::text::concat_text, 6);
        }
        s
    }
}

impl LicenseInfo {
    /// `true` when `self` holds what a license document `doc` gives: the
    /// string members `customer`, `licenseType` and `expireDate` (empty when
    /// absent or not a string) and the number `recordLimit` (0 when absent
    /// or not an `i64`).
    pub open spec fn is_read_from(&self, doc: Json, raw_json: Seq<char>) -> bool {
        &&& self.customer@ == json_str_or_empty(Some(doc), "customer"@)
        &&& self.license_type@ == json_str_or_empty(Some(doc), "licenseType"@)
        &&& self.expiration_date@ == json_str_or_empty(Some(doc), "expireDate"@)
        &&& self.record_limit == json_i64_or_zero(Some(doc), "recordLimit"@)
        &&& self.raw_json@ == raw_json
    }

    /// The license information of a parsed license document.
    pub fn from_document(doc: &Json, raw_json: String) -> (info: LicenseInfo)
        ensures
            info.is_read_from(*doc, raw_json@),
    {
        LicenseInfo {
            customer: str_member_or_empty(doc, "customer"),
            license_type: str_member_or_empty(doc, "licenseType"),
            expiration_date: str_member_or_empty(doc, "expireDate"),
            record_limit: i64_member_or_zero(doc, "recordLimit"),
            raw_json,
        }
    }

    /// The text shown for the license (its `Display` form):
    /// `TYPE license for CUSTOMER (expires DATE)`.
    pub fn display(&self) -> (s: String)
        ensures
            s@ == self.license_type@ + " license for "@ + self.customer@ + " (expires "@
                + self.expiration_date@ + ")"@,
    {
        let s = concat(
            &[
                self.license_type.as_str(),
                " license for ",
                self.customer.as_str(),
                " (expires ",
                self.expiration_date.as_str(),
                ")",
            ],
        );
        proof {
            reveal_with_fuel(crate::text::concat_text, 7);
        }
        s
    }
}

impl SzProductGrpc {
    /// The channel handle the product component sends its calls on.
    pub closed spec fn spec_channel(&self) -> tonic::transport::Channel {
        self.channel
    }

    /// Creates a product component on `channel`.
    pub fn new(channel: tonic::transport::Channel) -> (c: Self)
        ensures
            c.spec_channel() == channel,
    {
        SzProductGrpc { channel }
    }

    /// Returns a clone of the underlying channel handle.
    pub fn channel(&self) -> tonic::transport::Channel {
        self.channel.clone()
    }

    /// The text shown for the component (its `Display` form): its type's
    /// name.
    pub fn display(&self) -> (s: String)
        ensures
            s@ == "SzProductGrpc"@,
    {
        "SzProductGrpc".to_owned()
    }

    /// Parses the reply of `get_version` into a [`VersionInfo`]; a reply
    /// that does not parse as JSON gives a `General` error (code 0).
    pub fn get_version_info(raw_json: String) -> (r: Result<VersionInfo, SzError>)
        ensures
            match serde_json_from_str(raw_json@) {
                Ok(doc) => r matches Ok(info) && info.is_read_from(doc, raw_json@),
                Err(err) => r matches Err(e) && e.is(
                    SzErrorKind::General,
                    0,
                    json_failure_text("version"@, err),
                ),
            },
    {
        match parse_response("version", raw_json.as_str()) {
            Ok(doc) => Ok(VersionInfo::from_document(&doc, raw_json)),
            Err(e) => Err(e),
        }
    }

    /// Parses the reply of `get_license` into a [`LicenseInfo`]; a reply
    /// that does not parse as JSON gives a `General` error (code 0).
    pub fn get_license_info(raw_json: String) -> (r: Result<LicenseInfo, SzError>)
        ensures
            match serde_json_from_str(raw_json@) {
                Ok(doc) => r matches Ok(info) && info.is_read_from(doc, raw_json@),
                Err(err) => r matches Err(e) && e.is(
                    SzErrorKind::General,
                    0,
                    json_failure_text("license"@, err),
                ),
            },
    {
        match parse_response("license", raw_json.as_str()) {
            Ok(doc) => Ok(LicenseInfo::from_document(&doc, raw_json)),
            Err(e) => Err(e),
        }
    }
}

} // verus!
