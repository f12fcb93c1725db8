//! Recorded telemetry state.
//!
//! Process-wide telemetry is modelled as an explicitly passed context that
//! records, in order, every property set and every event emitted during
//! bootstrap. The transport that ships the records is outside this library;
//! it reads the context after bootstrap wrote it.

use vstd::prelude::*;

verus! {

/// One process-wide telemetry property, written once during bootstrap.
#[derive(Debug, Clone, PartialEq, Eq)]
pub enum TelemetryProperty {
    JobId(u128),
    TaskId(u128),
    MachineId(u128),
    Version(String),
    InstanceId(u128),
    /// Fixed role marker: this process is the agent.
    RoleAgent,
    ScalesetId(String),
}

/// The one event the dispatcher emits: the task is starting, with its
/// kind's event-type string and, for the two tool-driven kinds, the tool
/// it will invoke.
#[derive(Debug, Clone, PartialEq, Eq)]
pub struct TaskStartEvent {
    pub event_type: String,
    pub tool_name: Option<String>,
}

/// Telemetry context: what bootstrap has recorded so far.
#[derive(Debug, Clone, PartialEq, Eq)]
pub struct TelemetryContext {
    pub properties: Vec<TelemetryProperty>,
    pub events: Vec<TaskStartEvent>,
}

impl TelemetryContext {
    /// A context with nothing recorded.
    pub fn new() -> (r: TelemetryContext)
        ensures
            r.properties@ == Seq::<TelemetryProperty>::empty(),
            r.events@ == Seq::<TaskStartEvent>::empty(),
    {
        TelemetryContext { properties: Vec::new(), events: Vec::new() }
    }

    /// Records one property, after everything recorded before.
    pub fn set_property(&mut self, p: TelemetryProperty)
        ensures
            final(self).properties@ == old(self).properties@.push(p),
            final(self).events == old(self).events,
    {
        self.properties.push(p);
    }

    /// Records one event, after everything recorded before.
    pub fn emit(&mut self, e: TaskStartEvent)
        ensures
            final(self).events@ == old(self).events@.push(e),
            final(self).properties == old(self).properties,
    {
        self.events.push(e);
    }
}

} // verus!
