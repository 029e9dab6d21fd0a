//! The SDK's error type, the table that maps Senzing error codes to error
//! kinds, and the retry policy for transient errors.
//!
//! For each Senzing error code the most specific error kind of the Senzing
//! error hierarchy is selected; codes that only map to the generic kind, or
//! that are not known, become [`SzErrorKind::General`].
use vstd::prelude::*;
use vstd::arithmetic::power2::pow2;

use crate::duration::{Duration, NANOS_PER_MILLI, NANOS_PER_SEC};

verus! {

/// The kind of an [`SzError`], without its code and message.
#[derive(Debug, Clone, Copy, PartialEq, Eq, Hash, Structural)]
pub enum SzErrorKind {
    BadInput,
    Configuration,
    Database,
    DatabaseConnectionLost,
    DatabaseTransient,
    General,
    License,
    NotFound,
    NotInitialized,
    ReplaceConflict,
    RetryTimeoutExceeded,
    Unhandled,
    UnknownDataSource,
}

/// An error reported by the SDK: a kind, the Senzing error code (0 when the
/// error did not come with one) and a human-readable message.
#[derive(Debug, Clone, PartialEq, Eq)]
pub enum SzError {
    BadInput { code: i32, message: String },
    Configuration { code: i32, message: String },
    Database { code: i32, message: String },
    DatabaseConnectionLost { code: i32, message: String },
    DatabaseTransient { code: i32, message: String },
    General { code: i32, message: String },
    License { code: i32, message: String },
    NotFound { code: i32, message: String },
    NotInitialized { code: i32, message: String },
    ReplaceConflict { code: i32, message: String },
    RetryTimeoutExceeded { code: i32, message: String },
    Unhandled { code: i32, message: String },
    UnknownDataSource { code: i32, message: String },
}

impl SzError {
    /// The kind of the error.
    pub open spec fn spec_kind(&self) -> SzErrorKind {
        match self {
            SzError::BadInput { .. } => SzErrorKind::BadInput,
            SzError::Configuration { .. } => SzErrorKind::Configuration,
            SzError::Database { .. } => SzErrorKind::Database,
            SzError::DatabaseConnectionLost { .. } => SzErrorKind::DatabaseConnectionLost,
            SzError::DatabaseTransient { .. } => SzErrorKind::DatabaseTransient,
            SzError::General { .. } => SzErrorKind::General,
            SzError::License { .. } => SzErrorKind::License,
            SzError::NotFound { .. } => SzErrorKind::NotFound,
            SzError::NotInitialized { .. } => SzErrorKind::NotInitialized,
            SzError::ReplaceConflict { .. } => SzErrorKind::ReplaceConflict,
            SzError::RetryTimeoutExceeded { .. } => SzErrorKind::RetryTimeoutExceeded,
            SzError::Unhandled { .. } => SzErrorKind::Unhandled,
            SzError::UnknownDataSource { .. } => SzErrorKind::UnknownDataSource,
        }
    }

    /// The Senzing error code carried by the error.
    pub open spec fn spec_code(&self) -> i32 {
        match self {
            SzError::BadInput { code, .. } => *code,
            SzError::Configuration { code, .. } => *code,
            SzError::Database { code, .. } => *code,
            SzError::DatabaseConnectionLost { code, .. } => *code,
            SzError::DatabaseTransient { code, .. } => *code,
            SzError::General { code, .. } => *code,
            SzError::License { code, .. } => *code,
            SzError::NotFound { code, .. } => *code,
            SzError::NotInitialized { code, .. } => *code,
            SzError::ReplaceConflict { code, .. } => *code,
            SzError::RetryTimeoutExceeded { code, .. } => *code,
            SzError::Unhandled { code, .. } => *code,
            SzError::UnknownDataSource { code, .. } => *code,
        }
    }

    /// The message carried by the error.
    pub open spec fn spec_message(&self) -> Seq<char> {
        match self {
            SzError::BadInput { message, .. } => message@,
            SzError::Configuration { message, .. } => message@,
            SzError::Database { message, .. } => message@,
            SzError::DatabaseConnectionLost { message, .. } => message@,
            SzError::DatabaseTransient { message, .. } => message@,
            SzError::General { message, .. } => message@,
            SzError::License { message, .. } => message@,
            SzError::NotFound { message, .. } => message@,
            SzError::NotInitialized { message, .. } => message@,
            SzError::ReplaceConflict { message, .. } => message@,
            SzError::RetryTimeoutExceeded { message, .. } => message@,
            SzError::Unhandled { message, .. } => message@,
            SzError::UnknownDataSource { message, .. } => message@,
        }
    }

    /// `true` when the error has the given kind, code and message.
    pub open spec fn is(&self, kind: SzErrorKind, code: i32, message: Seq<char>) -> bool {
        &&& self.spec_kind() == kind
        &&& self.spec_code() == code
        &&& self.spec_message() == message
    }

    /// Builds an error of the given kind.
    pub fn new(kind: SzErrorKind, code: i32, message: String) -> (e: SzError)
        ensures
            e.is(kind, code, message@),
    {
        match kind {
            SzErrorKind::BadInput => SzError::BadInput { code, message },
            SzErrorKind::Configuration => SzError::Configuration { code, message },
            SzErrorKind::Database => SzError::Database { code, message },
            SzErrorKind::DatabaseConnectionLost => SzError::DatabaseConnectionLost { code, message },
            SzErrorKind::DatabaseTransient => SzError::DatabaseTransient { code, message },
            SzErrorKind::General => SzError::General { code, message },
            SzErrorKind::License => SzError::License { code, message },
            SzErrorKind::NotFound => SzError::NotFound { code, message },
            SzErrorKind::NotInitialized => SzError::NotInitialized { code, message },
            SzErrorKind::ReplaceConflict => SzError::ReplaceConflict { code, message },
            SzErrorKind::RetryTimeoutExceeded => SzError::RetryTimeoutExceeded { code, message },
            SzErrorKind::Unhandled => SzError::Unhandled { code, message },
            SzErrorKind::UnknownDataSource => SzError::UnknownDataSource { code, message },
        }
    }

    /// The kind of the error.
    #[verifier::when_used_as_spec(spec_kind)]
    pub fn kind(&self) -> (k: SzErrorKind)
        ensures
            k == self.spec_kind(),
    {
        match self {
            SzError::BadInput { .. } => SzErrorKind::BadInput,
            SzError::Configuration { .. } => SzErrorKind::Configuration,
            SzError::Database { .. } => SzErrorKind::Database,
            SzError::DatabaseConnectionLost { .. } => SzErrorKind::DatabaseConnectionLost,
            SzError::DatabaseTransient { .. } => SzErrorKind::DatabaseTransient,
            SzError::General { .. } => SzErrorKind::General,
            SzError::License { .. } => SzErrorKind::License,
            SzError::NotFound { .. } => SzErrorKind::NotFound,
            SzError::NotInitialized { .. } => SzErrorKind::NotInitialized,
            SzError::ReplaceConflict { .. } => SzErrorKind::ReplaceConflict,
            SzError::RetryTimeoutExceeded { .. } => SzErrorKind::RetryTimeoutExceeded,
            SzError::Unhandled { .. } => SzErrorKind::Unhandled,
            SzError::UnknownDataSource { .. } => SzErrorKind::UnknownDataSource,
        }
    }

    /// The Senzing error code carried by the error.
    #[verifier::when_used_as_spec(spec_code)]
    pub fn code(&self) -> (c: i32)
        ensures
            c == self.spec_code(),
    {
        match self {
            SzError::BadInput { code, .. } => *code,
            SzError::Configuration { code, .. } => *code,
            SzError::Database { code, .. } => *code,
            SzError::DatabaseConnectionLost { code, .. } => *code,
            SzError::DatabaseTransient { code, .. } => *code,
            SzError::General { code, .. } => *code,
            SzError::License { code, .. } => *code,
            SzError::NotFound { code, .. } => *code,
            SzError::NotInitialized { code, .. } => *code,
            SzError::ReplaceConflict { code, .. } => *code,
            SzError::RetryTimeoutExceeded { code, .. } => *code,
            SzError::Unhandled { code, .. } => *code,
            SzError::UnknownDataSource { code, .. } => *code,
        }
    }

    /// The message carried by the error.
    pub fn message(&self) -> (m: &String)
        ensures
            m@ == self.spec_message(),
    {
        match self {
            SzError::BadInput { message, .. } => message,
            SzError::Configuration { message, .. } => message,
            SzError::Database { message, .. } => message,
            SzError::DatabaseConnectionLost { message, .. } => message,
            SzError::DatabaseTransient { message, .. } => message,
            SzError::General { message, .. } => message,
            SzError::License { message, .. } => message,
            SzError::NotFound { message, .. } => message,
            SzError::NotInitialized { message, .. } => message,
            SzError::ReplaceConflict { message, .. } => message,
            SzError::RetryTimeoutExceeded { message, .. } => message,
            SzError::Unhandled { message, .. } => message,
            SzError::UnknownDataSource { message, .. } => message,
        }
    }

    /// The same error with its code replaced by `code`.
    pub fn with_code(self, code: i32) -> (e: SzError)
        ensures
            e.is(self.spec_kind(), code, self.spec_message()),
    {
        let kind = self.kind();
        let message = self.message().clone();
        SzError::new(kind, code, message)
    }

    /// The text of the error as it is shown to a user: its message.
    pub fn display(&self) -> (s: String)
        ensures
            s@ == self.spec_message(),
    {
        self.message().clone()
    }

    /// A [`SzErrorKind::BadInput`] error with code 0.
    pub fn bad_input(message: &str) -> (e: SzError)
        ensures
            e.is(SzErrorKind::BadInput, 0, message@),
    {
        SzError::new(SzErrorKind::BadInput, 0, message.to_owned())
    }

    /// A [`SzErrorKind::General`] error with code 0.
    pub fn general(message: &str) -> (e: SzError)
        ensures
            e.is(SzErrorKind::General, 0, message@),
    {
        SzError::new(SzErrorKind::General, 0, message.to_owned())
    }

    /// A [`SzErrorKind::NotFound`] error with code 0.
    pub fn not_found(message: &str) -> (e: SzError)
        ensures
            e.is(SzErrorKind::NotFound, 0, message@),
    {
        SzError::new(SzErrorKind::NotFound, 0, message.to_owned())
    }

    /// A [`SzErrorKind::NotInitialized`] error with code 0.
    pub fn not_initialized(message: &str) -> (e: SzError)
        ensures
            e.is(SzErrorKind::NotInitialized, 0, message@),
    {
        SzError::new(SzErrorKind::NotInitialized, 0, message.to_owned())
    }

    /// A [`SzErrorKind::DatabaseTransient`] error with code 0.
    pub fn database_transient(message: &str) -> (e: SzError)
        ensures
            e.is(SzErrorKind::DatabaseTransient, 0, message@),
    {
        SzError::new(SzErrorKind::DatabaseTransient, 0, message.to_owned())
    }
}

/// The Senzing error codes that denote invalid input (malformed JSON,
/// conflicting values, bad flags, ...).
pub open spec fn is_bad_input_code(code: int) -> bool {
    code == 2 || code == 7 || code == 22 || code == 23 || code == 24 || code == 25 || code == 26
        || code == 27 || code == 51 || code == 65 || code == 66 || code == 88 || code == 2057
        || code == 3121 || code == 3122 || code == 3123 || code == 3131 || code == 7303
        || code == 7305 || code == 7313 || code == 7314 || code == 7426 || code == 8000
        || code == 9115 || code == 9226 || code == 9414
}

/// The Senzing error codes that denote a general database failure.
pub open spec fn is_database_code(code: int) -> bool {
    code == 54 || (1000 <= code <= 1005) || (1009 <= code <= 1018)
}

/// The Senzing error codes that denote an invalid or corrupt configuration.
pub open spec fn is_configuration_code(code: int) -> bool {
    code == 14 || (19 <= code <= 21) || code == 28 || code == 30 || (34 <= code <= 36)
        || code == 40 || (60 <= code <= 62) || code == 64 || code == 67 || code == 89
        || code == 90 || code == 1019 || code == 2001 || code == 2012 || code == 2015
        || code == 2029 || code == 2034 || (2036 <= code <= 2038) || code == 2041
        || code == 2045 || (2047 <= code <= 2051) || code == 2061 || code == 2062
        || (2065 <= code <= 2067) || (2069 <= code <= 2071) || code == 2075 || code == 2076
        || (2079 <= code <= 2084) || (2088 <= code <= 2095) || code == 2099 || (2101 <= code <= 2114)
        || code == 2117 || code == 2118 || code == 2120 || code == 2121 || code == 2123
        || code == 2131 || (2135 <= code <= 2139) || code == 2205 || code == 2206
        || (2209 <= code <= 2228) || (2230 <= code <= 2264) || (2266 <= code <= 2283)
        || (2289 <= code <= 2291) || code == 7209 || (7211 <= code <= 7213) || (7216 <= code
        <= 7218) || (7220 <= code <= 7224) || (7226 <= code <= 7228) || code == 7230 || (7232 <= code <= 7237)
        || code == 7239 || code == 7240 || code == 7241 || code == 7243 || code == 7244
        || code == 7246 || code == 7247 || code == 7317 || code == 7344 || code == 8501
        || code == 8516 || code == 8517 || code == 8522 || (8525 <= code <= 8529) || code
        == 8536 || code == 8538 || code == 8540 || (8543 <= code <= 8545) || code == 8556
        || code == 8557 || code == 8599 || code == 8601 || code == 8602 || (8604 <= code
        <= 8608) || code == 8701 || code == 8702 || code == 9107 || (9110 <= code <= 9113)
        || (9116 <= code <= 9120) || code == 9210 || code == 9220 || code == 9222 || code
        == 9224 || code == 9225 || code == 9228 || code == 9240 || code == 9241 || (9250
        <= code <= 9261) || (9264 <= code <= 9266) || code == 9269 || code == 9270 || (9284
        <= code <= 9286) || code == 9292 || code == 9293 || (9295 <= code <= 9298) || code
        == 9300 || code == 9301 || (9308 <= code <= 9310) || code == 9408 || code == 9409
        || code == 9413 || code == 9500 || code == 9802 || code == 9803
}

/// The error kind that the Senzing error code `code` denotes.
pub open spec fn kind_for_code(code: int) -> SzErrorKind {
    if is_bad_input_code(code) {
        SzErrorKind::BadInput
    } else if code == 33 || code == 37 {
        SzErrorKind::NotFound
    } else if (48 <= code <= 50) || code == 53 {
        SzErrorKind::NotInitialized
    } else if is_database_code(code) {
        SzErrorKind::Database
    } else if code == 1006 || code == 1007 {
        SzErrorKind::DatabaseConnectionLost
    } else if code == 1008 {
        SzErrorKind::DatabaseTransient
    } else if code == 10 {
        SzErrorKind::RetryTimeoutExceeded
    } else if code == 999 || code == 9000 {
        SzErrorKind::License
    } else if code == 87 {
        SzErrorKind::Unhandled
    } else if code == 7245 {
        SzErrorKind::ReplaceConflict
    } else if code == 2207 {
        SzErrorKind::UnknownDataSource
    } else if is_configuration_code(code) {
        SzErrorKind::Configuration
    } else {
        SzErrorKind::General
    }
}

/// The kind that the Senzing error code `code` denotes.
fn kind_of_code(code: i32) -> (k: SzErrorKind)
    ensures
        k == kind_for_code(code as int),
{
    match code {
        2 | 7 | 22 | 23 | 24 | 25 | 26 | 27 | 51 | 65 | 66 | 88 | 2057 | 3121 | 3122 | 3123
        | 3131 | 7303 | 7305 | 7313 | 7314 | 7426 | 8000 | 9115 | 9226 | 9414 => {
            SzErrorKind::BadInput
        },
        33 | 37 => SzErrorKind::NotFound,
        48 | 49 | 50 | 53 => SzErrorKind::NotInitialized,
        54 | 1000 | 1001 | 1002 | 1003 | 1004 | 1005 | 1009 | 1010 | 1011 | 1012 | 1013 | 1014
        | 1015 | 1016 | 1017 | 1018 => SzErrorKind::Database,
        1006 | 1007 => SzErrorKind::DatabaseConnectionLost,
        1008 => SzErrorKind::DatabaseTransient,
        10 => SzErrorKind::RetryTimeoutExceeded,
        999 | 9000 => SzErrorKind::License,
        87 => SzErrorKind::Unhandled,
        7245 => SzErrorKind::ReplaceConflict,
        2207 => SzErrorKind::UnknownDataSource,
        14 | 19 | 20 | 21 | 28 | 30 | 34 | 35 | 36 | 40 | 60 | 61 | 62 | 64 | 67 | 89 | 90
        | 1019 | 2001 | 2012 | 2015 | 2029 | 2034 | 2036 | 2037 | 2038 | 2041 | 2045 | 2047
        | 2048 | 2049 | 2050 | 2051 | 2061 | 2062 | 2065 | 2066 | 2067 | 2069 | 2070 | 2071
        | 2075 | 2076 | 2079 | 2080 | 2081 | 2082 | 2083 | 2084 | 2088 | 2089 | 2090 | 2091
        | 2092 | 2093 | 2094 | 2095 | 2099 | 2101 | 2102 | 2103 | 2104 | 2105 | 2106 | 2107
        | 2108 | 2109 | 2110 | 2111 | 2112 | 2113 | 2114 | 2117 | 2118 | 2120 | 2121 | 2123
        | 2131 | 2135 | 2136 | 2137 | 2138 | 2139 | 2205 | 2206 | 2209 | 2210 | 2211 | 2212
        | 2213 | 2214 | 2215 | 2216 | 2217 | 2218 | 2219 | 2220 | 2221 | 2222 | 2223 | 2224
        | 2225 | 2226 | 2227 | 2228 | 2230 | 2231 | 2232 | 2233 | 2234 | 2235 | 2236 | 2237
        | 2238 | 2239 | 2240 | 2241 | 2242 | 2243 | 2244 | 2245 | 2246 | 2247 | 2248 | 2249
        | 2250 | 2251 | 2252 | 2253 | 2254 | 2255 | 2256 | 2257 | 2258 | 2259 | 2260 | 2261
        | 2262 | 2263 | 2264 | 2266 | 2267 | 2268 | 2269 | 2270 | 2271 | 2272 | 2273 | 2274
        | 2275 | 2276 | 2277 | 2278 | 2279 | 2280 | 2281 | 2282 | 2283 | 2289 | 2290 | 2291
        | 7209 | 7211 | 7212 | 7213 | 7216 | 7217 | 7218 | 7220 | 7221 | 7222 | 7223 | 7224
        | 7226 | 7227 | 7228 | 7230 | 7232 | 7233 | 7234 | 7235 | 7236 | 7237 | 7239 | 7240
        | 7241 | 7243 | 7244 | 7246 | 7247 | 7317 | 7344 | 8501 | 8516 | 8517 | 8522 | 8525
        | 8526 | 8527 | 8528 | 8529 | 8536 | 8538 | 8540 | 8543 | 8544 | 8545 | 8556 | 8557
        | 8599 | 8601 | 8602 | 8604 | 8605 | 8606 | 8607 | 8608 | 8701 | 8702 | 9107 | 9110
        | 9111 | 9112 | 9113 | 9116 | 9117 | 9118 | 9119 | 9120 | 9210 | 9220 | 9222 | 9224
        | 9225 | 9228 | 9240 | 9241 | 9250 | 9251 | 9252 | 9253 | 9254 | 9255 | 9256 | 9257
        | 9258 | 9259 | 9260 | 9261 | 9264 | 9265 | 9266 | 9269 | 9270 | 9284 | 9285 | 9286
        | 9292 | 9293 | 9295 | 9296 | 9297 | 9298 | 9300 | 9301 | 9308 | 9309 | 9310 | 9408
        | 9409 | 9413 | 9500 | 9802 | 9803 => SzErrorKind::Configuration,
        _ => SzErrorKind::General,
    }
}

/// The Senzing error code table, for the kinds with few codes: each of
/// these kinds is given for exactly the codes listed with it, and no other.
pub proof fn lemma_code_table_few(code: int)
    ensures
        kind_for_code(code) == SzErrorKind::NotFound <==> (code == 33 || code == 37),
        kind_for_code(code) == SzErrorKind::NotInitialized <==> (code == 48 || code == 49 || code == 50 || code == 53),
        kind_for_code(code) == SzErrorKind::DatabaseConnectionLost <==> (code == 1006 || code == 1007),
        kind_for_code(code) == SzErrorKind::DatabaseTransient <==> (code == 1008),
        kind_for_code(code) == SzErrorKind::RetryTimeoutExceeded <==> (code == 10),
        kind_for_code(code) == SzErrorKind::License <==> (code == 999 || code == 9000),
        kind_for_code(code) == SzErrorKind::Unhandled <==> (code == 87),
        kind_for_code(code) == SzErrorKind::ReplaceConflict <==> (code == 7245),
        kind_for_code(code) == SzErrorKind::UnknownDataSource <==> (code == 2207),
{
}

/// The Senzing error code table for BadInput: exactly the codes listed
/// here, which denote invalid input, give [`SzErrorKind::BadInput`].
pub proof fn lemma_code_table_bad_input(code: int)
    ensures
        kind_for_code(code) == SzErrorKind::BadInput <==> (code == 2 || code == 7 || code == 22 || code == 23 || code == 24 || code == 25
            || code == 26 || code == 27 || code == 51 || code == 65 || code == 66
            || code == 88 || code == 2057 || code == 3121 || code == 3122 || code == 3123
            || code == 3131 || code == 7303 || code == 7305 || code == 7313 || code == 7314
            || code == 7426 || code == 8000 || code == 9115 || code == 9226 || code == 9414),
{
}

/// The Senzing error code table for Database: exactly the codes listed
/// here, which denote a general database failure, give [`SzErrorKind::Database`].
pub proof fn lemma_code_table_database(code: int)
    ensures
        kind_for_code(code) == SzErrorKind::Database <==> (code == 54 || code == 1000 || code == 1001 || code == 1002 || code == 1003
            || code == 1004 || code == 1005 || code == 1009 || code == 1010 || code == 1011
            || code == 1012 || code == 1013 || code == 1014 || code == 1015 || code == 1016
            || code == 1017 || code == 1018),
{
}

/// The Senzing error code table for Configuration: exactly the codes listed
/// here, which denote an invalid or corrupt configuration, give [`SzErrorKind::Configuration`].
pub proof fn lemma_code_table_configuration(code: int)
    ensures
        kind_for_code(code) == SzErrorKind::Configuration <==> (code == 14 || code == 19 || code == 20 || code == 21 || code == 28 || code == 30
            || code == 34 || code == 35 || code == 36 || code == 40 || code == 60
            || code == 61 || code == 62 || code == 64 || code == 67 || code == 89
            || code == 90 || code == 1019 || code == 2001 || code == 2012 || code == 2015
            || code == 2029 || code == 2034 || code == 2036 || code == 2037 || code == 2038
            || code == 2041 || code == 2045 || code == 2047 || code == 2048 || code == 2049
            || code == 2050 || code == 2051 || code == 2061 || code == 2062 || code == 2065
            || code == 2066 || code == 2067 || code == 2069 || code == 2070 || code == 2071
            || code == 2075 || code == 2076 || code == 2079 || code == 2080 || code == 2081
            || code == 2082 || code == 2083 || code == 2084 || code == 2088 || code == 2089
            || code == 2090 || code == 2091 || code == 2092 || code == 2093 || code == 2094
            || code == 2095 || code == 2099 || code == 2101 || code == 2102 || code == 2103
            || code == 2104 || code == 2105 || code == 2106 || code == 2107 || code == 2108
            || code == 2109 || code == 2110 || code == 2111 || code == 2112 || code == 2113
            || code == 2114 || code == 2117 || code == 2118 || code == 2120 || code == 2121
            || code == 2123 || code == 2131 || code == 2135 || code == 2136 || code == 2137
            || code == 2138 || code == 2139 || code == 2205 || code == 2206 || code == 2209
            || code == 2210 || code == 2211 || code == 2212 || code == 2213 || code == 2214
            || code == 2215 || code == 2216 || code == 2217 || code == 2218 || code == 2219
            || code == 2220 || code == 2221 || code == 2222 || code == 2223 || code == 2224
            || code == 2225 || code == 2226 || code == 2227 || code == 2228 || code == 2230
            || code == 2231 || code == 2232 || code == 2233 || code == 2234 || code == 2235
            || code == 2236 || code == 2237 || code == 2238 || code == 2239 || code == 2240
            || code == 2241 || code == 2242 || code == 2243 || code == 2244 || code == 2245
            || code == 2246 || code == 2247 || code == 2248 || code == 2249 || code == 2250
            || code == 2251 || code == 2252 || code == 2253 || code == 2254 || code == 2255
            || code == 2256 || code == 2257 || code == 2258 || code == 2259 || code == 2260
            || code == 2261 || code == 2262 || code == 2263 || code == 2264 || code == 2266
            || code == 2267 || code == 2268 || code == 2269 || code == 2270 || code == 2271
            || code == 2272 || code == 2273 || code == 2274 || code == 2275 || code == 2276
            || code == 2277 || code == 2278 || code == 2279 || code == 2280 || code == 2281
            || code == 2282 || code == 2283 || code == 2289 || code == 2290 || code == 2291
            || code == 7209 || code == 7211 || code == 7212 || code == 7213 || code == 7216
            || code == 7217 || code == 7218 || code == 7220 || code == 7221 || code == 7222
            || code == 7223 || code == 7224 || code == 7226 || code == 7227 || code == 7228
            || code == 7230 || code == 7232 || code == 7233 || code == 7234 || code == 7235
            || code == 7236 || code == 7237 || code == 7239 || code == 7240 || code == 7241
            || code == 7243 || code == 7244 || code == 7246 || code == 7247 || code == 7317
            || code == 7344 || code == 8501 || code == 8516 || code == 8517 || code == 8522
            || code == 8525 || code == 8526 || code == 8527 || code == 8528 || code == 8529
            || code == 8536 || code == 8538 || code == 8540 || code == 8543 || code == 8544
            || code == 8545 || code == 8556 || code == 8557 || code == 8599 || code == 8601
            || code == 8602 || code == 8604 || code == 8605 || code == 8606 || code == 8607
            || code == 8608 || code == 8701 || code == 8702 || code == 9107 || code == 9110
            || code == 9111 || code == 9112 || code == 9113 || code == 9116 || code == 9117
            || code == 9118 || code == 9119 || code == 9120 || code == 9210 || code == 9220
            || code == 9222 || code == 9224 || code == 9225 || code == 9228 || code == 9240
            || code == 9241 || code == 9250 || code == 9251 || code == 9252 || code == 9253
            || code == 9254 || code == 9255 || code == 9256 || code == 9257 || code == 9258
            || code == 9259 || code == 9260 || code == 9261 || code == 9264 || code == 9265
            || code == 9266 || code == 9269 || code == 9270 || code == 9284 || code == 9285
            || code == 9286 || code == 9292 || code == 9293 || code == 9295 || code == 9296
            || code == 9297 || code == 9298 || code == 9300 || code == 9301 || code == 9308
            || code == 9309 || code == 9310 || code == 9408 || code == 9409 || code == 9413
            || code == 9500 || code == 9802 || code == 9803),
{
}

/// Every code the Senzing error code table does not list, and only those,
/// gives [`SzErrorKind::General`].
pub proof fn lemma_code_table_general(code: int)
    ensures
        kind_for_code(code) == SzErrorKind::General <==> !(code == 2 || code == 7 || code == 10 || code == 14 || code == 19 || code == 20
            || code == 21 || code == 22 || code == 23 || code == 24 || code == 25
            || code == 26 || code == 27 || code == 28 || code == 30 || code == 33
            || code == 34 || code == 35 || code == 36 || code == 37 || code == 40
            || code == 48 || code == 49 || code == 50 || code == 51 || code == 53
            || code == 54 || code == 60 || code == 61 || code == 62 || code == 64
            || code == 65 || code == 66 || code == 67 || code == 87 || code == 88
            || code == 89 || code == 90 || code == 999 || code == 1000 || code == 1001
            || code == 1002 || code == 1003 || code == 1004 || code == 1005 || code == 1006
            || code == 1007 || code == 1008 || code == 1009 || code == 1010 || code == 1011
            || code == 1012 || code == 1013 || code == 1014 || code == 1015 || code == 1016
            || code == 1017 || code == 1018 || code == 1019 || code == 2001 || code == 2012
            || code == 2015 || code == 2029 || code == 2034 || code == 2036 || code == 2037
            || code == 2038 || code == 2041 || code == 2045 || code == 2047 || code == 2048
            || code == 2049 || code == 2050 || code == 2051 || code == 2057 || code == 2061
            || code == 2062 || code == 2065 || code == 2066 || code == 2067 || code == 2069
            || code == 2070 || code == 2071 || code == 2075 || code == 2076 || code == 2079
            || code == 2080 || code == 2081 || code == 2082 || code == 2083 || code == 2084
            || code == 2088 || code == 2089 || code == 2090 || code == 2091 || code == 2092
            || code == 2093 || code == 2094 || code == 2095 || code == 2099 || code == 2101
            || code == 2102 || code == 2103 || code == 2104 || code == 2105 || code == 2106
            || code == 2107 || code == 2108 || code == 2109 || code == 2110 || code == 2111
            || code == 2112 || code == 2113 || code == 2114 || code == 2117 || code == 2118
            || code == 2120 || code == 2121 || code == 2123 || code == 2131 || code == 2135
            || code == 2136 || code == 2137 || code == 2138 || code == 2139 || code == 2205
            || code == 2206 || code == 2207 || code == 2209 || code == 2210 || code == 2211
            || code == 2212 || code == 2213 || code == 2214 || code == 2215 || code == 2216
            || code == 2217 || code == 2218 || code == 2219 || code == 2220 || code == 2221
            || code == 2222 || code == 2223 || code == 2224 || code == 2225 || code == 2226
            || code == 2227 || code == 2228 || code == 2230 || code == 2231 || code == 2232
            || code == 2233 || code == 2234 || code == 2235 || code == 2236 || code == 2237
            || code == 2238 || code == 2239 || code == 2240 || code == 2241 || code == 2242
            || code == 2243 || code == 2244 || code == 2245 || code == 2246 || code == 2247
            || code == 2248 || code == 2249 || code == 2250 || code == 2251 || code == 2252
            || code == 2253 || code == 2254 || code == 2255 || code == 2256 || code == 2257
            || code == 2258 || code == 2259 || code == 2260 || code == 2261 || code == 2262
            || code == 2263 || code == 2264 || code == 2266 || code == 2267 || code == 2268
            || code == 2269 || code == 2270 || code == 2271 || code == 2272 || code == 2273
            || code == 2274 || code == 2275 || code == 2276 || code == 2277 || code == 2278
            || code == 2279 || code == 2280 || code == 2281 || code == 2282 || code == 2283
            || code == 2289 || code == 2290 || code == 2291 || code == 3121 || code == 3122
            || code == 3123 || code == 3131 || code == 7209 || code == 7211 || code == 7212
            || code == 7213 || code == 7216 || code == 7217 || code == 7218 || code == 7220
            || code == 7221 || code == 7222 || code == 7223 || code == 7224 || code == 7226
            || code == 7227 || code == 7228 || code == 7230 || code == 7232 || code == 7233
            || code == 7234 || code == 7235 || code == 7236 || code == 7237 || code == 7239
            || code == 7240 || code == 7241 || code == 7243 || code == 7244 || code == 7245
            || code == 7246 || code == 7247 || code == 7303 || code == 7305 || code == 7313
            || code == 7314 || code == 7317 || code == 7344 || code == 7426 || code == 8000
            || code == 8501 || code == 8516 || code == 8517 || code == 8522 || code == 8525
            || code == 8526 || code == 8527 || code == 8528 || code == 8529 || code == 8536
            || code == 8538 || code == 8540 || code == 8543 || code == 8544 || code == 8545
            || code == 8556 || code == 8557 || code == 8599 || code == 8601 || code == 8602
            || code == 8604 || code == 8605 || code == 8606 || code == 8607 || code == 8608
            || code == 8701 || code == 8702 || code == 9000 || code == 9107 || code == 9110
            || code == 9111 || code == 9112 || code == 9113 || code == 9115 || code == 9116
            || code == 9117 || code == 9118 || code == 9119 || code == 9120 || code == 9210
            || code == 9220 || code == 9222 || code == 9224 || code == 9225 || code == 9226
            || code == 9228 || code == 9240 || code == 9241 || code == 9250 || code == 9251
            || code == 9252 || code == 9253 || code == 9254 || code == 9255 || code == 9256
            || code == 9257 || code == 9258 || code == 9259 || code == 9260 || code == 9261
            || code == 9264 || code == 9265 || code == 9266 || code == 9269 || code == 9270
            || code == 9284 || code == 9285 || code == 9286 || code == 9292 || code == 9293
            || code == 9295 || code == 9296 || code == 9297 || code == 9298 || code == 9300
            || code == 9301 || code == 9308 || code == 9309 || code == 9310 || code == 9408
            || code == 9409 || code == 9413 || code == 9414 || code == 9500 || code == 9802
            || code == 9803),
{
}

/// Maps a Senzing error code to the error of the matching kind, keeping
/// the code and the message.
///
/// Unrecognized codes, and codes that only map to the generic Senzing error,
/// give [`SzErrorKind::General`].
pub fn sz_error_from_code(code: i32, message: String) -> (e: SzError)
    ensures
        e.is(kind_for_code(code as int), code, message@),
{
    SzError::new(kind_of_code(code), code, message)
}

/// `true` for the kinds of error that are transient, so that the operation
/// that failed may be attempted again.
pub open spec fn is_retryable_kind(kind: SzErrorKind) -> bool {
    kind == SzErrorKind::DatabaseTransient || kind == SzErrorKind::DatabaseConnectionLost
        || kind == SzErrorKind::RetryTimeoutExceeded
}

/// Returns `true` if the error is likely transient and the operation can be
/// retried: a database deadlock or lock timeout, a lost database connection,
/// or an exceeded optimistic-locking retry timeout. Every other kind,
/// `Database` included, gives `false`.
pub fn is_retryable(err: &SzError) -> (b: bool)
    ensures
        b == is_retryable_kind(err.spec_kind()),
{
    match err {
        SzError::DatabaseTransient { .. } | SzError::DatabaseConnectionLost { .. }
        | SzError::RetryTimeoutExceeded { .. } => true,
        _ => false,
    }
}

/// An error made from a Senzing error code is retryable exactly when the
/// code is one of the transient codes: 10 (retry timeout exceeded), 1006 and
/// 1007 (database connection lost) and 1008 (database deadlock).
pub proof fn lemma_retryable_codes(code: i32)
    ensures
        is_retryable_kind(kind_for_code(code as int)) <==> (code == 10 || code == 1006 || code
            == 1007 || code == 1008),
{
}

/// The longest pause between two attempts of a retried operation: 30 seconds.
pub open spec fn max_retry_delay_nanos() -> nat {
    (30 * NANOS_PER_SEC) as nat
}

/// The pause before attempt `attempt + 1`, without jitter: the base delay
/// doubled once per earlier retry (at most ten times), capped at 30 seconds.
pub open spec fn retry_backoff_nanos(base_delay: nat, attempt: nat) -> nat {
    let doublings: nat = if attempt < 10 { attempt } else { 10 };
    let grown = base_delay * pow2(doublings);
    if grown < max_retry_delay_nanos() { grown } else { max_retry_delay_nanos() }
}

/// The pause before the attempt after attempt number `attempt` (counted
/// from 0), without jitter.
pub fn retry_backoff(base_delay: Duration, attempt: u32) -> (d: Duration)
    ensures
        d@ == retry_backoff_nanos(base_delay@, attempt as nat),
{
    let doublings: u32 = if attempt < 10 { attempt } else { 10 };
    let mut factor: u128 = 1;
    let mut i: u32 = 0;
    proof {
        vstd::arithmetic::power2::lemma2_to64();
    }
    while i < doublings
        invariant
            i <= doublings <= 10,
            factor == pow2(i as nat),
        decreases doublings - i,
    {
        proof {
            vstd::arithmetic::power2::lemma_pow2_unfold((i + 1) as nat);
            vstd::arithmetic::power2::lemma_pow2_strictly_increases(i as nat, 10);
            vstd::arithmetic::power2::lemma2_to64();
        }
        factor = factor * 2;
        i = i + 1;
    }
    let base = base_delay.as_nanos();
    proof {
        vstd::arithmetic::power2::lemma2_to64();
        if doublings < 10 {
            vstd::arithmetic::power2::lemma_pow2_strictly_increases(doublings as nat, 10);
        }
        assert(base * factor <= base * 1024) by (nonlinear_arith)
            requires
                factor <= 1024,
        ;
        assert(base * 1024 < u128::MAX) by (nonlinear_arith)
            requires
                base <= u64::MAX * NANOS_PER_SEC + (NANOS_PER_SEC - 1),
        ;
    }
    let grown = base * factor;
    let cap: u128 = 30 * (NANOS_PER_SEC as u128);
    let total = if grown < cap { grown } else { cap };
    Duration::from_nanos(total as u64)
}

/// The random part added to a pause: `entropy` modulo a quarter of the pause
/// in whole milliseconds (at least one millisecond), in milliseconds.
pub open spec fn retry_jitter_millis(backoff: nat, entropy: nat) -> nat {
    entropy % retry_jitter_span(backoff)
}

/// The number of possible jitters, in milliseconds, for a pause of
/// `backoff` nanoseconds: a quarter of it in whole milliseconds, at least 1.
pub open spec fn retry_jitter_span(backoff: nat) -> nat {
    let quarter = (backoff / (NANOS_PER_MILLI as nat)) / 4;
    if quarter < 1 { 1 } else { quarter }
}

/// The pause before the attempt after attempt number `attempt`: the backoff
/// of [`retry_backoff`] plus a jitter of up to a quarter of it, taken from
/// `entropy` (any number the caller draws, such as clock nanoseconds).
pub fn retry_pause(base_delay: Duration, attempt: u32, entropy: u64) -> (d: Duration)
    ensures
        d@ == retry_backoff_nanos(base_delay@, attempt as nat) + retry_jitter_millis(
            retry_backoff_nanos(base_delay@, attempt as nat),
            entropy as nat,
        ) * NANOS_PER_MILLI,
{
    let backoff = retry_backoff(base_delay, attempt);
    let backoff_nanos = backoff.as_nanos();
    let quarter = backoff.as_millis() / 4;
    let span: u128 = if quarter < 1 { 1 } else { quarter };
    let jitter_millis = (entropy as u128) % span;
    assert(jitter_millis < span);
    assert(span <= 7500int);
    let total = backoff_nanos + jitter_millis * (NANOS_PER_MILLI as u128);
    Duration::from_nanos(total as u64)
}

/// What to do after an attempt of a retried operation failed.
#[derive(Debug, Clone, Copy, PartialEq, Eq)]
pub enum RetryDecision {
    /// Pause for the given time, then attempt the operation again.
    Retry(Duration),
    /// Give up and return the error of this attempt.
    GiveUp,
}

/// `true` when an attempt numbered `attempt` (counted from 0) that failed
/// with an error of kind `kind` is followed by another attempt, out of
/// `max_attempts` attempts in all.
pub open spec fn retries_after(kind: SzErrorKind, attempt: nat, max_attempts: nat) -> bool {
    is_retryable_kind(kind) && attempt + 1 < max_attempts
}

/// Decides what follows a failed attempt of an operation run with
/// automatic retry: the attempt numbered `attempt` (counted from 0) failed
/// with `err`; `max_attempts` is the total number of attempts allowed.
///
/// A retryable error is followed by another attempt unless this was the
/// last allowed attempt; any other error ends the run at once. The pause is
/// that of [`retry_pause`].
pub fn retry_decision(
    err: &SzError,
    attempt: u32,
    max_attempts: u32,
    base_delay: Duration,
    entropy: u64,
) -> (d: RetryDecision)
    ensures
        retries_after(err.spec_kind(), attempt as nat, max_attempts as nat) <==> d is Retry,
        d matches RetryDecision::Retry(pause) ==> pause@ == retry_backoff_nanos(
            base_delay@,
            attempt as nat,
        ) + retry_jitter_millis(retry_backoff_nanos(base_delay@, attempt as nat), entropy as nat)
            * NANOS_PER_MILLI,
{
    let max_retries = max_attempts.saturating_sub(1);
    if is_retryable(err) && attempt < max_retries {
        RetryDecision::Retry(retry_pause(base_delay, attempt, entropy))
    } else {
        RetryDecision::GiveUp
    }
}

/// A run of automatic retries ends within `max_attempts` attempts: after
/// the last allowed attempt no error, whatever its kind, is retried; and an
/// error that is not retryable is never retried.
pub proof fn lemma_retry_bounded(kind: SzErrorKind, attempt: nat, max_attempts: nat)
    ensures
        attempt + 1 >= max_attempts ==> !retries_after(kind, attempt, max_attempts),
        !is_retryable_kind(kind) ==> !retries_after(kind, attempt, max_attempts),
{
}

/// The retry policy: a failed attempt is followed by another exactly when
/// its error is a database deadlock or lock timeout
/// ([`SzErrorKind::DatabaseTransient`]), a lost database connection
/// ([`SzErrorKind::DatabaseConnectionLost`]) or an exceeded retry timeout
/// ([`SzErrorKind::RetryTimeoutExceeded`]), and it was not the last allowed
/// attempt. So every such error before the last attempt is retried, and no
/// other error is.
pub proof fn lemma_retry_policy(kind: SzErrorKind, attempt: nat, max_attempts: nat)
    ensures
        retries_after(kind, attempt, max_attempts) <==> ((kind == SzErrorKind::DatabaseTransient
            || kind == SzErrorKind::DatabaseConnectionLost || kind
            == SzErrorKind::RetryTimeoutExceeded) && attempt + 1 < max_attempts),
{
}

/// `true` when a run of automatic retries allowed `max_attempts` attempts
/// makes the attempt numbered `i` (counted from 0), where attempt `j`
/// fails with an error of kind `outcome(j)` or succeeds (`None`): every
/// earlier attempt failed with an error after which the run retries (see
/// [`retries_after`], which is what [`retry_decision`] and
/// [`next_retry_step`] decide by).
pub open spec fn run_makes_attempt(
    outcome: spec_fn(nat) -> Option<SzErrorKind>,
    max_attempts: nat,
    i: nat,
) -> bool {
    forall|j: nat|
        j < i ==> (#[trigger] outcome(j) matches Some(kind) && retries_after(kind, j, max_attempts))
}

/// A whole run of automatic retries makes at most `max_attempts` attempts,
/// and makes none after a success or after an error that is not
/// retryable: every attempt it makes is numbered below `max_attempts`, and
/// every earlier attempt failed with a retryable error.
pub proof fn lemma_retry_run(outcome: spec_fn(nat) -> Option<SzErrorKind>, max_attempts: nat, i: nat)
    requires
        max_attempts >= 1,
        run_makes_attempt(outcome, max_attempts, i),
    ensures
        i < max_attempts,
        forall|j: nat|
            j < i ==> (#[trigger] outcome(j) matches Some(kind) && is_retryable_kind(kind)),
{
    if i > 0 {
        let last = (i - 1) as nat;
        assert(outcome(last) matches Some(kind) && retries_after(kind, last, max_attempts));
    }
    assert forall|j: nat| j < i implies (#[trigger] outcome(j) matches Some(kind) && is_retryable_kind(kind)) by {
        assert(outcome(j) matches Some(kind) && retries_after(kind, j, max_attempts));
    }
}

#[verifier::external_type_specification]
#[verifier::external_body]
pub struct ExSystemTime(std::time::SystemTime);

/// `SystemTime::now` reads the system clock; nothing is claimed about the
/// time it gives.
pub assume_specification[ std::time::SystemTime::now ]() -> std::time::SystemTime;

/// `Duration::subsec_nanos` gives the fractional part of a duration in
/// nanoseconds, which its documentation promises is below one second.
pub assume_specification[ core::time::Duration::subsec_nanos ](d: &core::time::Duration) -> (n: u32)
    ensures
        n < NANOS_PER_SEC,
;

/// The time from the Unix epoch to `t`, as `SystemTime::duration_since`
/// with `UNIX_EPOCH` gives it; `None` when `t` is before the epoch (the
/// call's error). The clock decides the value: nothing is claimed about it.
#[verifier::external_body]
fn time_since_epoch(t: std::time::SystemTime) -> Option<core::time::Duration> {
    match t.duration_since(std::time::SystemTime::UNIX_EPOCH) {
        Ok(d) => Some(d),
        Err(_) => None,
    }
}

/// The nanoseconds within the current second of the system clock (of the
/// time since the Unix epoch, or 0 when the clock is set before it). The
/// clock decides the value: only its range is known.
fn simple_jitter_nanos() -> (n: u64)
    ensures
        n < NANOS_PER_SEC,
{
    match time_since_epoch(std::time::SystemTime::now()) {
        Some(d) => d.subsec_nanos() as u64,
        None => 0,
    }
}

/// Decides what follows a failed attempt, as [`retry_decision`] does, with
/// the jitter drawn from the system clock: whatever the clock gives, the
/// pause is the backoff plus a whole number of milliseconds below the
/// jitter span.
pub fn next_retry_step(err: &SzError, attempt: u32, max_attempts: u32, base_delay: Duration) -> (d:
    RetryDecision)
    ensures
        retries_after(err.spec_kind(), attempt as nat, max_attempts as nat) <==> d is Retry,
        d matches RetryDecision::Retry(pause) ==> exists|j: nat|
            j < retry_jitter_span(retry_backoff_nanos(base_delay@, attempt as nat)) && pause@
                == retry_backoff_nanos(base_delay@, attempt as nat) + #[trigger] (j
                * NANOS_PER_MILLI),
{
    let entropy = simple_jitter_nanos();
    let d = retry_decision(err, attempt, max_attempts, base_delay, entropy);
    proof {
        let backoff = retry_backoff_nanos(base_delay@, attempt as nat);
        let j = retry_jitter_millis(backoff, entropy as nat);
        assert(j < retry_jitter_span(backoff));
        assert(j * NANOS_PER_MILLI == j * NANOS_PER_MILLI);
    }
    d
}

} // verus!
