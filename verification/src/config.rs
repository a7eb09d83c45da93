//! Session configuration: the fields the host boundary sets before a
//! session starts, their defaults, and the checks that make a
//! configuration fit to start — all fatal at session start when violated.

use vstd::prelude::*;
use crate::retention::{spec_retention_policy, RetentionPolicy, RetentionType};

verus! {

/// The time domain of the instants the write path receives.
#[derive(Clone, Copy, Debug, PartialEq, Eq)]
pub enum TimestampMode {
    /// Instants are the pipeline clock plus its base time: wall-clock
    /// (Unix-domain) nanoseconds.
    RealtimeClock,
    /// Instants count nanoseconds since the network-time epoch.
    Ntp,
    /// Instants are already atomic-domain nanoseconds.
    Tai,
}

/// A configuration fault: fatal at session start, the session never
/// becomes active.
#[derive(Clone, Copy, Debug, PartialEq, Eq)]
pub enum ConfigError {
    /// The minimum index interval exceeds the maximum.
    IndexIntervalOrder,
    /// No scope was configured.
    ScopeNotDefined,
    /// No stream was configured.
    StreamNotDefined,
    /// No controller address was configured.
    ControllerNotDefined,
    /// The days retention policy was chosen without a day count.
    RetentionDaysNotSet,
    /// The bytes retention policy was chosen without a byte count.
    RetentionBytesNotSet,
    /// The stream was not given as one scope name, one slash, one stream
    /// name.
    StreamSpecMalformed,
}

/// The default local buffer size for data-stream appends, in bytes.
pub const DEFAULT_BUFFER_SIZE: usize = 128 * 1024;

/// The default minimum interval between index records, in nanoseconds.
pub const DEFAULT_INDEX_MIN_NANOS: u64 = 500_000_000;

/// The default maximum interval between index records, in nanoseconds.
pub const DEFAULT_INDEX_MAX_NANOS: u64 = 10_000_000_000;

/// The default interval between retention maintenance cycles, in seconds.
pub const DEFAULT_RETENTION_MAINTENANCE_INTERVAL_SECONDS: u64 = 15 * 60;

/// Everything a session is configured with.  Immutable once the session
/// starts.
pub struct SinkConfig {
    /// Scope name of the stream pair.
    pub scope: Option<String>,
    /// Data stream name; the index stream name is derived from it.
    pub stream: Option<String>,
    /// Address of the storage service's controller.
    pub controller: Option<String>,
    /// Whether to seal both streams when the session stops.
    pub seal: bool,
    /// Local buffer size for data-stream appends, in bytes.
    pub buffer_size: usize,
    /// The time domain of incoming instants.
    pub timestamp_mode: TimestampMode,
    /// Minimum nanoseconds between index records.
    pub index_min_nanos: u64,
    /// Nanoseconds after which an index record is forced even at a
    /// non-random-access record.
    pub index_max_nanos: u64,
    /// Whether the scope may be created if missing.
    pub allow_create_scope: bool,
    /// Credentials file for the storage service, when authentication is
    /// on.
    pub keycloak_file: Option<String>,
    /// Which retention boundaries the maintainer enforces.
    pub retention_type: RetentionType,
    /// The days component of the retention policy, in whole seconds.
    pub retention_days_seconds: Option<u64>,
    /// The bytes component of the retention policy.
    pub retention_bytes: Option<u64>,
    /// Seconds between retention maintenance cycles.
    pub retention_maintenance_interval_seconds: u64,
}

impl Default for SinkConfig {
    /// The configuration a session starts from before the host boundary
    /// sets any field.
    fn default() -> (c: Self)
        ensures
            c.scope is None,
            c.stream is None,
            c.controller is None,
            !c.seal,
            c.buffer_size == DEFAULT_BUFFER_SIZE,
            c.timestamp_mode == TimestampMode::Tai,
            c.index_min_nanos == DEFAULT_INDEX_MIN_NANOS,
            c.index_max_nanos == DEFAULT_INDEX_MAX_NANOS,
            c.allow_create_scope,
            c.keycloak_file is None,
            c.retention_type == RetentionType::Disabled,
            c.retention_days_seconds is None,
            c.retention_bytes is None,
            c.retention_maintenance_interval_seconds
                == DEFAULT_RETENTION_MAINTENANCE_INTERVAL_SECONDS,
    {
        SinkConfig {
            scope: None,
            stream: None,
            controller: None,
            seal: false,
            buffer_size: DEFAULT_BUFFER_SIZE,
            timestamp_mode: TimestampMode::Tai,
            index_min_nanos: DEFAULT_INDEX_MIN_NANOS,
            index_max_nanos: DEFAULT_INDEX_MAX_NANOS,
            allow_create_scope: true,
            keycloak_file: None,
            retention_type: RetentionType::Disabled,
            retention_days_seconds: None,
            retention_bytes: None,
            retention_maintenance_interval_seconds:
                DEFAULT_RETENTION_MAINTENANCE_INTERVAL_SECONDS,
        }
    }
}

/// Everything the adapter needs to open a session: the validated
/// configuration with the stream names resolved and the retention policy
/// built.
pub struct StartPlan {
    /// The scope to create (when allowed) and open the streams in.
    pub scope: String,
    /// The data stream's name.
    pub stream_name: String,
    /// The index stream's name, derived from the data stream's.
    pub index_stream_name: String,
    /// The controller address to reach the storage service at.
    pub controller: String,
    /// Local buffer size for data-stream appends, in bytes.
    pub buffer_size: usize,
    /// Whether the scope may be created if missing.
    pub allow_create_scope: bool,
    /// Credentials file, when authentication is on.
    pub keycloak_file: Option<String>,
    /// The time domain of incoming instants.
    pub timestamp_mode: TimestampMode,
    /// Minimum nanoseconds between index records.
    pub index_min_nanos: u64,
    /// Nanoseconds after which an index record is forced.
    pub index_max_nanos: u64,
    /// Whether to seal both streams when the session stops.
    pub seal_on_stop: bool,
    /// The retention policy the maintainer runs under.
    pub retention_policy: RetentionPolicy,
    /// Seconds between retention maintenance cycles.
    pub retention_interval_seconds: u64,
}

/// The first configuration fault a start would hit, if any: interval
/// order, then stream identity, then controller, then retention
/// parameters.
pub open spec fn spec_config_fault(c: SinkConfig) -> Option<ConfigError> {
    if c.index_min_nanos > c.index_max_nanos {
        Some(ConfigError::IndexIntervalOrder)
    } else if c.scope is None {
        Some(ConfigError::ScopeNotDefined)
    } else if c.stream is None {
        Some(ConfigError::StreamNotDefined)
    } else if c.controller is None {
        Some(ConfigError::ControllerNotDefined)
    } else {
        match spec_retention_policy(c.retention_type, c.retention_days_seconds, c.retention_bytes) {
            Ok(_) => None,
            Err(e) => Some(e),
        }
    }
}

impl SinkConfig {
    /// Checks the configuration and resolves everything a session start
    /// needs.  Fails with the first configuration fault; a session never
    /// starts on a faulty configuration.
    pub fn validate(&self) -> (r: Result<StartPlan, ConfigError>)
        ensures
            r is Ok <==> spec_config_fault(*self) is None,
            match r {
                Ok(p) => {
                    &&& self.index_min_nanos <= self.index_max_nanos
                    &&& self.scope is Some && p.scope@ == self.scope->0@
                    &&& self.stream is Some && p.stream_name@ == self.stream->0@
                    &&& p.index_stream_name@ == self.stream->0@ + "-index"@
                    &&& self.controller is Some && p.controller@ == self.controller->0@
                    &&& p.buffer_size == self.buffer_size
                    &&& p.allow_create_scope == self.allow_create_scope
                    &&& (p.keycloak_file is Some <==> self.keycloak_file is Some)
                    &&& (self.keycloak_file is Some ==> p.keycloak_file->0@
                        == self.keycloak_file->0@)
                    &&& p.timestamp_mode == self.timestamp_mode
                    &&& p.index_min_nanos == self.index_min_nanos
                    &&& p.index_max_nanos == self.index_max_nanos
                    &&& p.seal_on_stop == self.seal
                    &&& Ok::<RetentionPolicy, ConfigError>(p.retention_policy)
                        == spec_retention_policy(
                        self.retention_type,
                        self.retention_days_seconds,
                        self.retention_bytes,
                    )
                    &&& p.retention_interval_seconds
                        == self.retention_maintenance_interval_seconds
                },
                Err(e) => Some(e) == spec_config_fault(*self),
            },
    {
        if self.index_min_nanos > self.index_max_nanos {
            return Err(ConfigError::IndexIntervalOrder);
        }
        let scope = match &self.scope {
            Some(s) => String::from_str(s.as_str()),
            None => {
                return Err(ConfigError::ScopeNotDefined);
            },
        };
        let stream_name = match &self.stream {
            Some(s) => String::from_str(s.as_str()),
            None => {
                return Err(ConfigError::StreamNotDefined);
            },
        };
        let controller = match &self.controller {
            Some(s) => String::from_str(s.as_str()),
            None => {
                return Err(ConfigError::ControllerNotDefined);
            },
        };
        let retention_policy = match RetentionPolicy::new(
            self.retention_type,
            self.retention_days_seconds,
            self.retention_bytes,
        ) {
            Ok(p) => p,
            Err(e) => {
                return Err(e);
            },
        };
        let index_name = index_stream_name(stream_name.as_str());
        let keycloak_file = match &self.keycloak_file {
            Some(s) => Some(String::from_str(s.as_str())),
            None => None,
        };
        Ok(
            StartPlan {
                scope,
                stream_name,
                index_stream_name: index_name,
                controller,
                buffer_size: self.buffer_size,
                allow_create_scope: self.allow_create_scope,
                keycloak_file,
                timestamp_mode: self.timestamp_mode,
                index_min_nanos: self.index_min_nanos,
                index_max_nanos: self.index_max_nanos,
                seal_on_stop: self.seal,
                retention_policy,
                retention_interval_seconds: self.retention_maintenance_interval_seconds,
            },
        )
    }
}

/// Whether a stream specification holds exactly one slash.
pub open spec fn exactly_one_slash(s: Seq<char>) -> bool {
    exists|p: int|
        {
            &&& 0 <= p < s.len()
            &&& s[p] == '/'
            &&& forall|q: int| 0 <= q < s.len() && q != p ==> s[q] != '/'
        }
}

/// The position of the one slash of a stream specification.
pub open spec fn slash_position(s: Seq<char>) -> int {
    choose|p: int| 0 <= p < s.len() && s[p] == '/'
}

/// Splits a `scope/stream` specification at its one slash.  Fails exactly
/// when the specification does not hold exactly one slash.
pub fn parse_scoped_stream(s: &str) -> (r: Result<(String, String), ConfigError>)
    ensures
        match r {
            Ok((scope, stream)) => {
                &&& exactly_one_slash(s@)
                &&& scope@ == s@.subrange(0, slash_position(s@))
                &&& stream@ == s@.subrange(slash_position(s@) + 1, s@.len() as int)
            },
            Err(e) => e == ConfigError::StreamSpecMalformed && !exactly_one_slash(s@),
        },
{
    let len = s.unicode_len();
    let mut i: usize = 0;
    let mut first: Option<usize> = None;
    let mut duplicate: bool = false;
    while i < len
        invariant
            len == s@.len(),
            i <= len,
            match first {
                Some(p) => {
                    &&& p < i
                    &&& s@[p as int] == '/'
                    &&& forall|q: int| 0 <= q < p ==> s@[q] != '/'
                    &&& (duplicate <==> exists|q: int| p < q < i && s@[q] == '/')
                },
                None => {
                    &&& forall|q: int| 0 <= q < i ==> s@[q] != '/'
                    &&& !duplicate
                },
            },
        decreases len - i,
    {
        let c = s.get_char(i);
        if c == '/' {
            match first {
                None => {
                    first = Some(i);
                },
                Some(_) => {
                    duplicate = true;
                },
            }
        }
        i = i + 1;
    }
    match first {
        Some(p) => {
            if duplicate {
                Err(ConfigError::StreamSpecMalformed)
            } else {
                proof {
                    assert(exactly_one_slash(s@));
                    assert(slash_position(s@) == p as int);
                }
                let scope = String::from_str(s.substring_char(0, p));
                let stream = String::from_str(s.substring_char(p + 1, len));
                Ok((scope, stream))
            }
        },
        None => Err(ConfigError::StreamSpecMalformed),
    }
}

/// The index stream's name, derived deterministically from the data
/// stream's name.
pub fn index_stream_name(stream: &str) -> (r: String)
    ensures
        r@ == stream@ + "-index"@,
{
    let s = String::from_str(stream);
    s.concat("-index")
}

} // verus!
