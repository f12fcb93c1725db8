//! The bootstrap sequence: telemetry properties, handshake plan, and the
//! state machine that orders them before dispatch.
//!
//! The steps that cross the process boundary — connecting to a rendezvous
//! endpoint, sending a channel handle, awaiting the runner — are performed
//! by the embedding process; this module decides, from the configuration
//! and the stage reached, what is to be done next and what each outcome
//! leads to.

use vstd::prelude::*;
use crate::common::CommonConfig;
use crate::config::Config;
use crate::telemetry::{TelemetryContext, TelemetryProperty};

verus! {

/// One direction of the rendezvous handshake, as the embedding process
/// must perform it.
#[derive(Debug, Clone, PartialEq, Eq)]
pub enum HandshakeStep {
    /// Agent-to-task direction: create a fresh channel, connect to the
    /// endpoint as a client, send the producer handle across, and keep the
    /// consumer handle for reading control messages later.
    SendProducer { endpoint: String },
    /// Task-to-agent direction: create a fresh channel, connect to the
    /// endpoint as a client, send the consumer handle across, keep the
    /// producer handle, and immediately send one placeholder message on it.
    SendConsumer { endpoint: String },
}

/// The handshake steps a configuration calls for: the agent-to-task
/// direction first, then the task-to-agent direction, each present exactly
/// where its endpoint is set.
pub open spec fn spec_handshake_steps(c: CommonConfig) -> Seq<HandshakeStep> {
    let first: Seq<HandshakeStep> = if c.from_agent_to_task_endpoint is Some {
        seq![HandshakeStep::SendProducer { endpoint: c.from_agent_to_task_endpoint->0 }]
    } else {
        Seq::empty()
    };
    let second: Seq<HandshakeStep> = if c.from_task_to_agent_endpoint is Some {
        seq![HandshakeStep::SendConsumer { endpoint: c.from_task_to_agent_endpoint->0 }]
    } else {
        Seq::empty()
    };
    first + second
}

/// Plans the handshake for a configuration.
pub fn handshake_steps(c: &CommonConfig) -> (r: Vec<HandshakeStep>)
    ensures
        r@ == spec_handshake_steps(*c),
{
    let mut steps: Vec<HandshakeStep> = Vec::new();
    if let Some(e) = &c.from_agent_to_task_endpoint {
        steps.push(HandshakeStep::SendProducer { endpoint: e.clone() });
    }
    if let Some(e) = &c.from_task_to_agent_endpoint {
        steps.push(HandshakeStep::SendConsumer { endpoint: e.clone() });
    }
    proof {
        assert(steps@ =~= spec_handshake_steps(*c));
    }
    steps
}

/// The one fixed message sent on the task-to-agent channel right after its
/// handshake completes.
pub fn placeholder_message() -> (r: String)
    ensures
        r@ == "hiiiii"@,
{
    "hiiiii".to_owned()
}

/// When neither rendezvous endpoint is configured, handshake establishment
/// is a no-op: the plan holds no step at all.
pub proof fn lemma_handshake_noop(c: CommonConfig)
    requires
        c.from_agent_to_task_endpoint is None,
        c.from_task_to_agent_endpoint is None,
    ensures
        spec_handshake_steps(c).len() == 0,
{
    assert(spec_handshake_steps(c) =~= Seq::<HandshakeStep>::empty());
}

/// When the task-to-agent endpoint is set, the plan holds exactly one
/// task-to-agent step, last and bound to that endpoint: the step whose
/// execution sends the one placeholder message.
pub proof fn lemma_one_task_to_agent_step(c: CommonConfig)
    requires
        c.from_task_to_agent_endpoint is Some,
    ensures
        spec_handshake_steps(c).len() == if c.from_agent_to_task_endpoint is Some {
            2int
        } else {
            1int
        },
        spec_handshake_steps(c).last() == (HandshakeStep::SendConsumer {
            endpoint: c.from_task_to_agent_endpoint->0,
        }),
        forall|i: int|
            0 <= i < spec_handshake_steps(c).len() - 1 ==> !(#[trigger] spec_handshake_steps(c)[i]
                is SendConsumer),
{
}

/// When neither rendezvous endpoint is configured, the empty handshake is
/// reported complete as skipped, and the very next action is starting the
/// runner: dispatch proceeds directly to runner invocation.
pub proof fn lemma_skipped_handshake_proceeds(c: Config)
    requires
        c.spec_common().from_agent_to_task_endpoint is None,
        c.spec_common().from_task_to_agent_endpoint is None,
    ensures
        spec_handshake_steps(c.spec_common()).len() == 0,
        spec_step(c, Stage::LifecycleInitialized, BootstrapEvent::HandshakeComplete { ok: true })
            == (Stage::HandshakeDone { skipped: true }),
        spec_action(Stage::HandshakeDone { skipped: true }) == BootstrapAction::StartRunner,
{
    lemma_handshake_noop(c.spec_common());
}

/// How far bootstrap has come. No transition is reversible.
#[derive(Debug, Clone, Copy, PartialEq, Eq, Structural)]
pub enum Stage {
    /// A configuration is loaded; nothing has run.
    Configured,
    /// Process-wide telemetry properties are set.
    LifecycleInitialized,
    /// Both configured handshake directions are established — or none was
    /// configured, and establishment was skipped.
    HandshakeDone { skipped: bool },
    /// The start event is emitted and the runner invoked.
    Dispatched,
    /// Bootstrap is over: either the runner's terminal outcome, or a
    /// failure before any runner ran.
    Terminal { success: bool },
}

/// What the embedding process reports back after performing an action.
#[derive(Debug, Clone, Copy, PartialEq, Eq, Structural)]
pub enum BootstrapEvent {
    /// Telemetry properties are set.
    LifecycleComplete,
    /// Every planned handshake step succeeded — trivially so where the
    /// plan was empty — or one failed.
    HandshakeComplete { ok: bool },
    /// The start event is emitted and the runner's execution has begun.
    RunnerStarted,
    /// The runner returned its terminal outcome.
    RunnerComplete { ok: bool },
}

/// What the embedding process is to do next.
#[derive(Debug, Clone, Copy, PartialEq, Eq, Structural)]
pub enum BootstrapAction {
    /// Set the telemetry properties of the configuration.
    InitLifecycle,
    /// Perform the planned handshake steps, in order.
    EstablishHandshake,
    /// Emit the start event and invoke the selected runner.
    StartRunner,
    /// Await the runner's terminal outcome.
    AwaitRunner,
    /// Bootstrap is over with this outcome.
    Finish { success: bool },
}

/// The action each stage calls for.
pub open spec fn spec_action(s: Stage) -> BootstrapAction {
    match s {
        Stage::Configured => BootstrapAction::InitLifecycle,
        Stage::LifecycleInitialized => BootstrapAction::EstablishHandshake,
        Stage::HandshakeDone { .. } => BootstrapAction::StartRunner,
        Stage::Dispatched => BootstrapAction::AwaitRunner,
        Stage::Terminal { success } => BootstrapAction::Finish { success },
    }
}

/// The stage an event leads to. A failed handshake, the only failure this
/// layer decides on, moves straight to a failed terminal stage; a terminal
/// stage absorbs every further event; an event that does not belong to the
/// stage changes nothing.
pub open spec fn spec_step(c: Config, s: Stage, e: BootstrapEvent) -> Stage {
    match (s, e) {
        (Stage::Configured, BootstrapEvent::LifecycleComplete) => Stage::LifecycleInitialized,
        (Stage::LifecycleInitialized, BootstrapEvent::HandshakeComplete { ok }) => if ok {
            Stage::HandshakeDone {
                skipped: c.spec_common().from_agent_to_task_endpoint is None
                    && c.spec_common().from_task_to_agent_endpoint is None,
            }
        } else {
            Stage::Terminal { success: false }
        },
        (Stage::HandshakeDone { .. }, BootstrapEvent::RunnerStarted) => Stage::Dispatched,
        (Stage::Dispatched, BootstrapEvent::RunnerComplete { ok }) => Stage::Terminal {
            success: ok,
        },
        (_, _) => s,
    }
}

/// The stage a whole event sequence leads to.
pub open spec fn run_stages(c: Config, s: Stage, es: Seq<BootstrapEvent>) -> Stage
    decreases es.len(),
{
    if es.len() == 0 {
        s
    } else {
        run_stages(c, spec_step(c, s, es[0]), es.drop_first())
    }
}

/// A terminal stage absorbs every event sequence.
pub proof fn lemma_terminal_absorbing(c: Config, success: bool, es: Seq<BootstrapEvent>)
    ensures
        run_stages(c, Stage::Terminal { success }, es) == (Stage::Terminal { success }),
    decreases es.len(),
{
    if es.len() > 0 {
        lemma_terminal_absorbing(c, success, es.drop_first());
    }
}

/// Only a completed (or skipped) handshake calls for starting a runner.
pub proof fn lemma_runner_needs_handshake(s: Stage)
    ensures
        spec_action(s) == BootstrapAction::StartRunner ==> s matches Stage::HandshakeDone { .. },
{
}

/// A failed handshake fails startup before any runner begins: the machine
/// lands in the failed terminal stage, and no continuation — whatever
/// events follow — ever reaches a stage that starts a runner or emits the
/// start event.
pub proof fn lemma_handshake_failure_halts(c: Config, es: Seq<BootstrapEvent>)
    ensures
        run_stages(
            c,
            spec_step(c, Stage::LifecycleInitialized, BootstrapEvent::HandshakeComplete { ok: false }),
            es,
        ) == (Stage::Terminal { success: false }),
{
    lemma_terminal_absorbing(c, false, es);
}

/// After a failed handshake, at every later point of every continuation
/// the action called for is finishing with failure — never starting a
/// runner: no start event is emitted and no runner is invoked.
pub proof fn lemma_no_runner_after_failed_handshake(c: Config, es: Seq<BootstrapEvent>, i: int)
    requires
        0 <= i <= es.len(),
    ensures
        spec_action(
            run_stages(
                c,
                spec_step(
                    c,
                    Stage::LifecycleInitialized,
                    BootstrapEvent::HandshakeComplete { ok: false },
                ),
                es.take(i),
            ),
        ) == (BootstrapAction::Finish { success: false }),
{
    lemma_terminal_absorbing(c, false, es.take(i));
}

/// Bootstrap state: the configuration under dispatch and the stage
/// reached. The embedding process performs each pending action and
/// advances the stage with the event it observed.
#[derive(Debug)]
pub struct Bootstrap {
    pub config: Config,
    pub stage: Stage,
}

impl Bootstrap {
    /// Starts bootstrap over a loaded configuration.
    pub fn new(config: Config) -> (r: Bootstrap)
        ensures
            r.config == config,
            r.stage == Stage::Configured,
    {
        Bootstrap { config, stage: Stage::Configured }
    }

    /// The action the reached stage calls for.
    pub fn action(&self) -> (r: BootstrapAction)
        ensures
            r == spec_action(self.stage),
    {
        match self.stage {
            Stage::Configured => BootstrapAction::InitLifecycle,
            Stage::LifecycleInitialized => BootstrapAction::EstablishHandshake,
            Stage::HandshakeDone { .. } => BootstrapAction::StartRunner,
            Stage::Dispatched => BootstrapAction::AwaitRunner,
            Stage::Terminal { success } => BootstrapAction::Finish { success },
        }
    }

    /// Advances the stage with an observed event, leaving the
    /// configuration alone.
    pub fn advance(&mut self, e: BootstrapEvent)
        ensures
            final(self).config == old(self).config,
            final(self).stage == spec_step(old(self).config, old(self).stage, e),
    {
        let next = match (&self.stage, &e) {
            (Stage::Configured, BootstrapEvent::LifecycleComplete) => Stage::LifecycleInitialized,
            (Stage::LifecycleInitialized, BootstrapEvent::HandshakeComplete { ok }) => if *ok {
                let common = self.config.common();
                Stage::HandshakeDone {
                    skipped: common.from_agent_to_task_endpoint.is_none()
                        && common.from_task_to_agent_endpoint.is_none(),
                }
            } else {
                Stage::Terminal { success: false }
            },
            (Stage::HandshakeDone { .. }, BootstrapEvent::RunnerStarted) => Stage::Dispatched,
            (Stage::Dispatched, BootstrapEvent::RunnerComplete { ok }) => Stage::Terminal {
                success: *ok,
            },
            (_, _) => self.stage,
        };
        self.stage = next;
    }
}

/// The telemetry properties lifecycle initialization sets, in order: the
/// execution's identifiers, the build version, the fixed role marker, and
/// the fleet name where the host belongs to one.
pub open spec fn spec_task_properties(c: CommonConfig, version: String) -> Seq<TelemetryProperty> {
    let base = seq![
        TelemetryProperty::JobId(c.job_id),
        TelemetryProperty::TaskId(c.task_id),
        TelemetryProperty::MachineId(c.machine_identity.machine_id),
        TelemetryProperty::Version(version),
        TelemetryProperty::InstanceId(c.instance_id),
        TelemetryProperty::RoleAgent,
    ];
    if c.machine_identity.scaleset_name is Some {
        base.push(TelemetryProperty::ScalesetId(c.machine_identity.scaleset_name->0))
    } else {
        base
    }
}

/// Sets the process-wide telemetry properties for a configuration: exactly
/// the planned properties, appended in order, with no event emitted.
pub fn set_task_properties(ctx: &mut TelemetryContext, c: &CommonConfig, version: String)
    ensures
        final(ctx).properties@ == old(ctx).properties@ + spec_task_properties(*c, version),
        final(ctx).events == old(ctx).events,
{
    ctx.set_property(TelemetryProperty::JobId(c.job_id));
    ctx.set_property(TelemetryProperty::TaskId(c.task_id));
    ctx.set_property(TelemetryProperty::MachineId(c.machine_identity.machine_id));
    ctx.set_property(TelemetryProperty::Version(version));
    ctx.set_property(TelemetryProperty::InstanceId(c.instance_id));
    ctx.set_property(TelemetryProperty::RoleAgent);
    if let Some(name) = &c.machine_identity.scaleset_name {
        ctx.set_property(TelemetryProperty::ScalesetId(name.clone()));
    }
    proof {
        assert(final(ctx).properties@ =~= old(ctx).properties@ + spec_task_properties(*c, version));
    }
}

} // verus!
