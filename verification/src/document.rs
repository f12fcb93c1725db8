//! Plain-value model of the configuration document, as read from storage.
//!
//! A [`Document`] holds exactly what the loader reads from the structured
//! document: every field optional, so that presence and absence can be told
//! apart. Interpreting it against the closed union of work kinds is the
//! loader's job.

use vstd::prelude::*;
use crate::ids::{uuid_of, url_ok};

verus! {

/// Host identity as the document spells it: identifiers still strings.
#[derive(Debug, Clone, PartialEq, Eq)]
pub struct RawMachineIdentity {
    pub machine_id: Option<String>,
    pub machine_name: Option<String>,
    pub scaleset_name: Option<String>,
}

/// The shared envelope as the document spells it.
#[derive(Debug, Clone, PartialEq, Eq)]
pub struct RawCommon {
    pub job_id: Option<String>,
    pub task_id: Option<String>,
    pub instance_id: Option<String>,
    pub heartbeat_queue: Option<String>,
    pub instance_telemetry_key: Option<String>,
    pub microsoft_telemetry_key: Option<String>,
    pub logs: Option<String>,
    /// Whatever the document held; the loader discards it in favour of the
    /// caller-supplied setup directory.
    pub setup_dir: Option<String>,
    pub min_available_memory_mb: Option<u64>,
    pub machine_identity: Option<RawMachineIdentity>,
    pub from_agent_to_task_endpoint: Option<String>,
    pub from_task_to_agent_endpoint: Option<String>,
}

/// A whole configuration document: the discriminant, the shared envelope,
/// and the two tool paths that the dispatcher reports for the analysis and
/// generator kinds.
#[derive(Debug, Clone, PartialEq, Eq)]
pub struct Document {
    pub task_type: Option<String>,
    pub common: Option<RawCommon>,
    pub analyzer_exe: Option<String>,
    pub generator_exe: Option<String>,
}

/// The document names a host identity the loader can accept: a machine id
/// that parses as a UUID, and a machine name.
pub open spec fn raw_identity_ok(m: RawMachineIdentity) -> bool {
    &&& m.machine_id matches Some(s) && uuid_of(s@) is Some
    &&& m.machine_name is Some
}

/// A transport address field is either absent or a valid URL.
pub open spec fn url_field_ok(f: Option<String>) -> bool {
    f matches Some(s) ==> url_ok(s@)
}

/// The document's shared envelope has the shape the loader accepts: the
/// three identifiers present and parsing as UUIDs, the queue addresses
/// valid where present, and a host identity.
pub open spec fn raw_common_ok(c: RawCommon) -> bool {
    &&& c.job_id matches Some(s) && uuid_of(s@) is Some
    &&& c.task_id matches Some(s) && uuid_of(s@) is Some
    &&& c.instance_id matches Some(s) && uuid_of(s@) is Some
    &&& url_field_ok(c.heartbeat_queue)
    &&& url_field_ok(c.logs)
    &&& c.machine_identity matches Some(m) && raw_identity_ok(m)
}

} // verus!
