//! The shared configuration envelope carried by every work kind.

use vstd::prelude::*;

verus! {

/// Default lower bound, in megabytes, on available system memory.
pub const DEFAULT_MIN_AVAILABLE_MEMORY_MB: u64 = 100;

/// The default applied to `min_available_memory_mb` when the document
/// leaves it out.
pub fn default_min_available_memory_mb() -> (r: u64)
    ensures
        r == DEFAULT_MIN_AVAILABLE_MEMORY_MB,
{
    DEFAULT_MIN_AVAILABLE_MEMORY_MB
}

/// Role of a storage container named by a task payload.
#[derive(Debug, PartialEq, Eq, Structural, Clone, Copy)]
pub enum ContainerType {
    Inputs,
}

impl ContainerType {
    /// Reads a container-type tag: the canonical name or its lower-case alias.
    pub fn from_tag(tag: &String) -> (r: Option<ContainerType>)
        ensures
            r is Some <==> (tag@ == "Inputs"@ || tag@ == "inputs"@),
            r matches Some(c) ==> c == ContainerType::Inputs,
    {
        if string_eq_literal(tag, "Inputs") || string_eq_literal(tag, "inputs") {
            Some(ContainerType::Inputs)
        } else {
            None
        }
    }
}

/// Compares a string against a literal by content.
pub(crate) fn string_eq_literal(a: &String, lit: &str) -> (r: bool)
    ensures
        r == (a@ == lit@),
{
    let l: String = lit.to_owned();
    *a == l
}

/// Identity of the executing host.
#[derive(Debug, Clone, PartialEq, Eq)]
pub struct MachineIdentity {
    /// 128-bit machine identifier.
    pub machine_id: u128,
    pub machine_name: String,
    /// Fleet (scaleset) the host belongs to, when it belongs to one.
    pub scaleset_name: Option<String>,
}

/// The field set shared by every work kind: identifiers, endpoints and
/// resource thresholds.
#[derive(Debug, Clone, PartialEq, Eq)]
pub struct CommonConfig {
    pub job_id: u128,

    pub task_id: u128,

    pub instance_id: u128,

    /// Queue address for periodic liveness signals; absence disables
    /// heartbeating.
    pub heartbeat_queue: Option<String>,

    pub instance_telemetry_key: Option<String>,

    pub microsoft_telemetry_key: Option<String>,

    /// Transport address for log shipping.
    pub logs: Option<String>,

    /// Always caller-authoritative: the loader overwrites whatever the
    /// document contained.
    pub setup_dir: String,

    /// Lower bound on available system memory; the task exits with an error
    /// when available memory drops below it. `0` disables the check.
    pub min_available_memory_mb: u64,

    pub machine_identity: MachineIdentity,

    /// Rendezvous endpoint for the agent-to-task handshake direction.
    pub from_agent_to_task_endpoint: Option<String>,

    /// Rendezvous endpoint for the task-to-agent handshake direction.
    pub from_task_to_agent_endpoint: Option<String>,
}

/// Everything a heartbeat client must be bound to: the queue, the
/// identifiers of this execution, and the host identity.
#[derive(Debug, Clone, PartialEq, Eq)]
pub struct HeartbeatRequest {
    pub queue_url: String,
    pub task_id: u128,
    pub job_id: u128,
    /// Delay, in milliseconds, before the first emission.
    pub initial_delay_ms: Option<u64>,
    pub machine_id: u128,
    pub machine_name: String,
}

impl CommonConfig {
    /// Decides whether a heartbeat client is to be started: `None` when no
    /// queue is configured (heartbeating disabled, not an error), otherwise
    /// the exact parameters the transport layer must construct the client
    /// with.
    pub fn init_heartbeat(&self, initial_delay_ms: Option<u64>) -> (r: Option<HeartbeatRequest>)
        ensures
            r is Some <==> self.heartbeat_queue is Some,
            r matches Some(req) ==> (req == HeartbeatRequest {
                queue_url: self.heartbeat_queue->0,
                task_id: self.task_id,
                job_id: self.job_id,
                initial_delay_ms,
                machine_id: self.machine_identity.machine_id,
                machine_name: self.machine_identity.machine_name,
            }),
    {
        match &self.heartbeat_queue {
            Some(url) => Some(HeartbeatRequest {
                queue_url: url.clone(),
                task_id: self.task_id,
                job_id: self.job_id,
                initial_delay_ms,
                machine_id: self.machine_identity.machine_id,
                machine_name: self.machine_identity.machine_name.clone(),
            }),
            None => None,
        }
    }
}

} // verus!
