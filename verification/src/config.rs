//! The closed union of work kinds and its loader.

use vstd::prelude::*;
use crate::common::{CommonConfig, MachineIdentity, DEFAULT_MIN_AVAILABLE_MEMORY_MB, string_eq_literal};
use crate::document::{Document, RawCommon, raw_common_ok};
use crate::ids::{uuid_of, parse_uuid, url_is_valid};
use crate::telemetry::{TaskStartEvent, TelemetryContext};

verus! {

/// The work kinds this agent can dispatch, one per discriminant tag.
#[derive(Debug, Clone, Copy, PartialEq, Eq, Structural)]
pub enum TaskKind {
    Coverage,
    DotnetCoverage,
    DotnetCrashReport,
    LibFuzzerDotnetFuzz,
    LibFuzzerFuzz,
    LibFuzzerReport,
    LibFuzzerMerge,
    LibFuzzerRegression,
    GenericAnalysis,
    GenericGenerator,
    GenericSupervisor,
    GenericMerge,
    GenericReport,
    GenericRegression,
}

/// Which platform-conditional work kinds the host supports. Resolved once
/// at startup by the embedding process; kinds whose flag is off are treated
/// as unrecognized, as on a host where they are not built.
#[derive(Debug, Clone, Copy, PartialEq, Eq, Structural)]
pub struct HostCapabilities {
    pub coverage: bool,
    pub dotnet_coverage: bool,
    pub libfuzzer_dotnet_fuzz: bool,
}

impl HostCapabilities {
    /// A host that supports every work kind.
    pub fn all() -> (r: HostCapabilities)
        ensures
            r == (HostCapabilities { coverage: true, dotnet_coverage: true, libfuzzer_dotnet_fuzz: true }),
    {
        HostCapabilities { coverage: true, dotnet_coverage: true, libfuzzer_dotnet_fuzz: true }
    }
}

/// Whether a work kind is available under the host's capabilities.
pub open spec fn kind_available(k: TaskKind, caps: HostCapabilities) -> bool {
    match k {
        TaskKind::Coverage => caps.coverage,
        TaskKind::DotnetCoverage => caps.dotnet_coverage,
        TaskKind::LibFuzzerDotnetFuzz => caps.libfuzzer_dotnet_fuzz,
        _ => true,
    }
}

/// The work kind a discriminant tag selects: each kind answers to its
/// canonical tag and to its declared alias, case-sensitively.
pub open spec fn kind_of_tag(tag: Seq<char>) -> Option<TaskKind> {
    if tag == "Coverage"@ || tag == "coverage"@ {
        Some(TaskKind::Coverage)
    } else if tag == "DotnetCoverage"@ || tag == "dotnet_coverage"@ {
        Some(TaskKind::DotnetCoverage)
    } else if tag == "DotnetCrashReport"@ || tag == "dotnet_crash_report"@ {
        Some(TaskKind::DotnetCrashReport)
    } else if tag == "LibFuzzerDotnetFuzz"@ || tag == "libfuzzer_dotnet_fuzz"@ {
        Some(TaskKind::LibFuzzerDotnetFuzz)
    } else if tag == "LibFuzzerFuzz"@ || tag == "libfuzzer_fuzz"@ {
        Some(TaskKind::LibFuzzerFuzz)
    } else if tag == "LibFuzzerReport"@ || tag == "libfuzzer_crash_report"@ {
        Some(TaskKind::LibFuzzerReport)
    } else if tag == "LibFuzzerMerge"@ || tag == "libfuzzer_merge"@ {
        Some(TaskKind::LibFuzzerMerge)
    } else if tag == "LibFuzzerRegression"@ || tag == "libfuzzer_regression"@ {
        Some(TaskKind::LibFuzzerRegression)
    } else if tag == "GenericAnalysis"@ || tag == "generic_analysis"@ {
        Some(TaskKind::GenericAnalysis)
    } else if tag == "GenericGenerator"@ || tag == "generic_generator"@ {
        Some(TaskKind::GenericGenerator)
    } else if tag == "GenericSupervisor"@ || tag == "generic_supervisor"@ {
        Some(TaskKind::GenericSupervisor)
    } else if tag == "GenericMerge"@ || tag == "generic_merge"@ {
        Some(TaskKind::GenericMerge)
    } else if tag == "GenericReport"@ || tag == "generic_crash_report"@ {
        Some(TaskKind::GenericReport)
    } else if tag == "GenericRegression"@ || tag == "generic_regression"@ {
        Some(TaskKind::GenericRegression)
    } else {
        None
    }
}

/// Matches a discriminant tag against every known kind and alias.
pub fn tag_kind(tag: &String) -> (r: Option<TaskKind>)
    ensures
        r == kind_of_tag(tag@),
{
    if string_eq_literal(tag, "Coverage") || string_eq_literal(tag, "coverage") {
        Some(TaskKind::Coverage)
    } else if string_eq_literal(tag, "DotnetCoverage") || string_eq_literal(tag, "dotnet_coverage") {
        Some(TaskKind::DotnetCoverage)
    } else if string_eq_literal(tag, "DotnetCrashReport") || string_eq_literal(tag, "dotnet_crash_report") {
        Some(TaskKind::DotnetCrashReport)
    } else if string_eq_literal(tag, "LibFuzzerDotnetFuzz") || string_eq_literal(tag, "libfuzzer_dotnet_fuzz") {
        Some(TaskKind::LibFuzzerDotnetFuzz)
    } else if string_eq_literal(tag, "LibFuzzerFuzz") || string_eq_literal(tag, "libfuzzer_fuzz") {
        Some(TaskKind::LibFuzzerFuzz)
    } else if string_eq_literal(tag, "LibFuzzerReport") || string_eq_literal(tag, "libfuzzer_crash_report") {
        Some(TaskKind::LibFuzzerReport)
    } else if string_eq_literal(tag, "LibFuzzerMerge") || string_eq_literal(tag, "libfuzzer_merge") {
        Some(TaskKind::LibFuzzerMerge)
    } else if string_eq_literal(tag, "LibFuzzerRegression") || string_eq_literal(tag, "libfuzzer_regression") {
        Some(TaskKind::LibFuzzerRegression)
    } else if string_eq_literal(tag, "GenericAnalysis") || string_eq_literal(tag, "generic_analysis") {
        Some(TaskKind::GenericAnalysis)
    } else if string_eq_literal(tag, "GenericGenerator") || string_eq_literal(tag, "generic_generator") {
        Some(TaskKind::GenericGenerator)
    } else if string_eq_literal(tag, "GenericSupervisor") || string_eq_literal(tag, "generic_supervisor") {
        Some(TaskKind::GenericSupervisor)
    } else if string_eq_literal(tag, "GenericMerge") || string_eq_literal(tag, "generic_merge") {
        Some(TaskKind::GenericMerge)
    } else if string_eq_literal(tag, "GenericReport") || string_eq_literal(tag, "generic_crash_report") {
        Some(TaskKind::GenericReport)
    } else if string_eq_literal(tag, "GenericRegression") || string_eq_literal(tag, "generic_regression") {
        Some(TaskKind::GenericRegression)
    } else {
        None
    }
}

/// Payload of a work kind whose per-kind content this layer does not
/// interpret: only the shared envelope is located.
#[derive(Debug, Clone, PartialEq, Eq)]
pub struct TaskPayload {
    pub common: CommonConfig,
}

/// Payload of the analysis kind: the envelope and the analyzer tool the
/// dispatcher reports.
#[derive(Debug, Clone, PartialEq, Eq)]
pub struct AnalysisPayload {
    pub common: CommonConfig,
    pub analyzer_exe: String,
}

/// Payload of the generator kind: the envelope and the generator tool the
/// dispatcher reports.
#[derive(Debug, Clone, PartialEq, Eq)]
pub struct GeneratorPayload {
    pub common: CommonConfig,
    pub generator_exe: String,
}

/// A loaded configuration: one variant per work kind, each carrying its
/// payload with the shared envelope inside.
#[derive(Debug, Clone, PartialEq, Eq)]
pub enum Config {
    Coverage(TaskPayload),
    DotnetCoverage(TaskPayload),
    DotnetCrashReport(TaskPayload),
    LibFuzzerDotnetFuzz(TaskPayload),
    LibFuzzerFuzz(TaskPayload),
    LibFuzzerReport(TaskPayload),
    LibFuzzerMerge(TaskPayload),
    LibFuzzerRegression(TaskPayload),
    GenericAnalysis(AnalysisPayload),
    GenericGenerator(GeneratorPayload),
    GenericSupervisor(TaskPayload),
    GenericMerge(TaskPayload),
    GenericReport(TaskPayload),
    GenericRegression(TaskPayload),
}

/// Why loading a document failed.
#[derive(Debug, Clone, Copy, PartialEq, Eq, Structural)]
pub enum SchemaError {
    /// The text is not a structured document at all.
    InvalidDocument,
    /// The document has no discriminant field.
    MissingDiscriminant,
    /// The discriminant names no work kind available on this host.
    UnrecognizedDiscriminant,
    /// The shared envelope, or a required tool path, is missing or malformed.
    MalformedPayload,
}

impl Config {
    /// The work kind of this configuration.
    pub open spec fn spec_kind(self) -> TaskKind {
        match self {
            Config::Coverage(_) => TaskKind::Coverage,
            Config::DotnetCoverage(_) => TaskKind::DotnetCoverage,
            Config::DotnetCrashReport(_) => TaskKind::DotnetCrashReport,
            Config::LibFuzzerDotnetFuzz(_) => TaskKind::LibFuzzerDotnetFuzz,
            Config::LibFuzzerFuzz(_) => TaskKind::LibFuzzerFuzz,
            Config::LibFuzzerReport(_) => TaskKind::LibFuzzerReport,
            Config::LibFuzzerMerge(_) => TaskKind::LibFuzzerMerge,
            Config::LibFuzzerRegression(_) => TaskKind::LibFuzzerRegression,
            Config::GenericAnalysis(_) => TaskKind::GenericAnalysis,
            Config::GenericGenerator(_) => TaskKind::GenericGenerator,
            Config::GenericSupervisor(_) => TaskKind::GenericSupervisor,
            Config::GenericMerge(_) => TaskKind::GenericMerge,
            Config::GenericReport(_) => TaskKind::GenericReport,
            Config::GenericRegression(_) => TaskKind::GenericRegression,
        }
    }

    /// The shared envelope embedded in this configuration's payload.
    pub open spec fn spec_common(self) -> CommonConfig {
        match self {
            Config::Coverage(p) => p.common,
            Config::DotnetCoverage(p) => p.common,
            Config::DotnetCrashReport(p) => p.common,
            Config::LibFuzzerDotnetFuzz(p) => p.common,
            Config::LibFuzzerFuzz(p) => p.common,
            Config::LibFuzzerMerge(p) => p.common,
            Config::LibFuzzerReport(p) => p.common,
            Config::LibFuzzerRegression(p) => p.common,
            Config::GenericAnalysis(p) => p.common,
            Config::GenericMerge(p) => p.common,
            Config::GenericReport(p) => p.common,
            Config::GenericSupervisor(p) => p.common,
            Config::GenericGenerator(p) => p.common,
            Config::GenericRegression(p) => p.common,
        }
    }

    /// The same configuration with the envelope's setup directory replaced.
    pub open spec fn spec_with_setup_dir(self, setup_dir: String) -> Config {
        match self {
            Config::Coverage(p) => Config::Coverage(TaskPayload {
                common: CommonConfig { setup_dir, ..p.common },
            }),
            Config::DotnetCoverage(p) => Config::DotnetCoverage(TaskPayload {
                common: CommonConfig { setup_dir, ..p.common },
            }),
            Config::DotnetCrashReport(p) => Config::DotnetCrashReport(TaskPayload {
                common: CommonConfig { setup_dir, ..p.common },
            }),
            Config::LibFuzzerDotnetFuzz(p) => Config::LibFuzzerDotnetFuzz(TaskPayload {
                common: CommonConfig { setup_dir, ..p.common },
            }),
            Config::LibFuzzerFuzz(p) => Config::LibFuzzerFuzz(TaskPayload {
                common: CommonConfig { setup_dir, ..p.common },
            }),
            Config::LibFuzzerReport(p) => Config::LibFuzzerReport(TaskPayload {
                common: CommonConfig { setup_dir, ..p.common },
            }),
            Config::LibFuzzerMerge(p) => Config::LibFuzzerMerge(TaskPayload {
                common: CommonConfig { setup_dir, ..p.common },
            }),
            Config::LibFuzzerRegression(p) => Config::LibFuzzerRegression(TaskPayload {
                common: CommonConfig { setup_dir, ..p.common },
            }),
            Config::GenericAnalysis(p) => Config::GenericAnalysis(AnalysisPayload {
                common: CommonConfig { setup_dir, ..p.common },
                analyzer_exe: p.analyzer_exe,
            }),
            Config::GenericGenerator(p) => Config::GenericGenerator(GeneratorPayload {
                common: CommonConfig { setup_dir, ..p.common },
                generator_exe: p.generator_exe,
            }),
            Config::GenericSupervisor(p) => Config::GenericSupervisor(TaskPayload {
                common: CommonConfig { setup_dir, ..p.common },
            }),
            Config::GenericMerge(p) => Config::GenericMerge(TaskPayload {
                common: CommonConfig { setup_dir, ..p.common },
            }),
            Config::GenericReport(p) => Config::GenericReport(TaskPayload {
                common: CommonConfig { setup_dir, ..p.common },
            }),
            Config::GenericRegression(p) => Config::GenericRegression(TaskPayload {
                common: CommonConfig { setup_dir, ..p.common },
            }),
        }
    }

    /// The work kind of this configuration.
    pub fn kind(&self) -> (r: TaskKind)
        ensures
            r == self.spec_kind(),
    {
        match self {
            Config::Coverage(_) => TaskKind::Coverage,
            Config::DotnetCoverage(_) => TaskKind::DotnetCoverage,
            Config::DotnetCrashReport(_) => TaskKind::DotnetCrashReport,
            Config::LibFuzzerDotnetFuzz(_) => TaskKind::LibFuzzerDotnetFuzz,
            Config::LibFuzzerFuzz(_) => TaskKind::LibFuzzerFuzz,
            Config::LibFuzzerReport(_) => TaskKind::LibFuzzerReport,
            Config::LibFuzzerMerge(_) => TaskKind::LibFuzzerMerge,
            Config::LibFuzzerRegression(_) => TaskKind::LibFuzzerRegression,
            Config::GenericAnalysis(_) => TaskKind::GenericAnalysis,
            Config::GenericGenerator(_) => TaskKind::GenericGenerator,
            Config::GenericSupervisor(_) => TaskKind::GenericSupervisor,
            Config::GenericMerge(_) => TaskKind::GenericMerge,
            Config::GenericReport(_) => TaskKind::GenericReport,
            Config::GenericRegression(_) => TaskKind::GenericRegression,
        }
    }

    /// The shared envelope, reachable uniformly whatever the variant.
    pub fn common(&self) -> (r: &CommonConfig)
        ensures
            *r == self.spec_common(),
    {
        match self {
            Config::Coverage(p) => &p.common,
            Config::DotnetCoverage(p) => &p.common,
            Config::DotnetCrashReport(p) => &p.common,
            Config::LibFuzzerDotnetFuzz(p) => &p.common,
            Config::LibFuzzerFuzz(p) => &p.common,
            Config::LibFuzzerMerge(p) => &p.common,
            Config::LibFuzzerReport(p) => &p.common,
            Config::LibFuzzerRegression(p) => &p.common,
            Config::GenericAnalysis(p) => &p.common,
            Config::GenericMerge(p) => &p.common,
            Config::GenericReport(p) => &p.common,
            Config::GenericSupervisor(p) => &p.common,
            Config::GenericGenerator(p) => &p.common,
            Config::GenericRegression(p) => &p.common,
        }
    }

    /// Overwrites the envelope's setup directory with the caller's value.
    pub fn set_setup_dir(&mut self, setup_dir: String)
        ensures
            *final(self) == old(self).spec_with_setup_dir(setup_dir),
    {
        match self {
            Config::Coverage(p) => p.common.setup_dir = setup_dir,
            Config::DotnetCoverage(p) => p.common.setup_dir = setup_dir,
            Config::DotnetCrashReport(p) => p.common.setup_dir = setup_dir,
            Config::LibFuzzerDotnetFuzz(p) => p.common.setup_dir = setup_dir,
            Config::LibFuzzerFuzz(p) => p.common.setup_dir = setup_dir,
            Config::LibFuzzerMerge(p) => p.common.setup_dir = setup_dir,
            Config::LibFuzzerReport(p) => p.common.setup_dir = setup_dir,
            Config::LibFuzzerRegression(p) => p.common.setup_dir = setup_dir,
            Config::GenericAnalysis(p) => p.common.setup_dir = setup_dir,
            Config::GenericMerge(p) => p.common.setup_dir = setup_dir,
            Config::GenericReport(p) => p.common.setup_dir = setup_dir,
            Config::GenericSupervisor(p) => p.common.setup_dir = setup_dir,
            Config::GenericGenerator(p) => p.common.setup_dir = setup_dir,
            Config::GenericRegression(p) => p.common.setup_dir = setup_dir,
        }
    }
}

/// The event-type string the dispatcher reports for a work kind. The two
/// libFuzzer fuzzing kinds share one event type.
pub open spec fn spec_event_type(k: TaskKind) -> Seq<char> {
    match k {
        TaskKind::Coverage => "coverage"@,
        TaskKind::DotnetCoverage => "dotnet_coverage"@,
        TaskKind::DotnetCrashReport => "dotnet_crash_report"@,
        TaskKind::LibFuzzerDotnetFuzz => "libfuzzer_fuzz"@,
        TaskKind::LibFuzzerFuzz => "libfuzzer_fuzz"@,
        TaskKind::LibFuzzerReport => "libfuzzer_crash_report"@,
        TaskKind::LibFuzzerMerge => "libfuzzer_merge"@,
        TaskKind::LibFuzzerRegression => "libfuzzer_regression"@,
        TaskKind::GenericAnalysis => "generic_analysis"@,
        TaskKind::GenericMerge => "generic_merge"@,
        TaskKind::GenericReport => "generic_crash_report"@,
        TaskKind::GenericSupervisor => "generic_supervisor"@,
        TaskKind::GenericGenerator => "generic_generator"@,
        TaskKind::GenericRegression => "generic_regression"@,
    }
}

/// The tool the start event reports: only the analysis and generator kinds
/// attach one.
pub open spec fn spec_tool_name(c: Config) -> Option<String> {
    match c {
        Config::GenericAnalysis(p) => Some(p.analyzer_exe),
        Config::GenericGenerator(p) => Some(p.generator_exe),
        _ => None,
    }
}

impl Config {
    /// The event-type string of this configuration's kind.
    pub fn event_type(&self) -> (r: String)
        ensures
            r@ == spec_event_type(self.spec_kind()),
    {
        match self {
            Config::Coverage(_) => "coverage".to_owned(),
            Config::DotnetCoverage(_) => "dotnet_coverage".to_owned(),
            Config::DotnetCrashReport(_) => "dotnet_crash_report".to_owned(),
            Config::LibFuzzerDotnetFuzz(_) => "libfuzzer_fuzz".to_owned(),
            Config::LibFuzzerFuzz(_) => "libfuzzer_fuzz".to_owned(),
            Config::LibFuzzerReport(_) => "libfuzzer_crash_report".to_owned(),
            Config::LibFuzzerMerge(_) => "libfuzzer_merge".to_owned(),
            Config::LibFuzzerRegression(_) => "libfuzzer_regression".to_owned(),
            Config::GenericAnalysis(_) => "generic_analysis".to_owned(),
            Config::GenericMerge(_) => "generic_merge".to_owned(),
            Config::GenericReport(_) => "generic_crash_report".to_owned(),
            Config::GenericSupervisor(_) => "generic_supervisor".to_owned(),
            Config::GenericGenerator(_) => "generic_generator".to_owned(),
            Config::GenericRegression(_) => "generic_regression".to_owned(),
        }
    }

    /// The start event for this configuration: its kind's event type and,
    /// for the analysis and generator kinds, the tool they will invoke.
    pub fn start_event(&self) -> (r: TaskStartEvent)
        ensures
            r.event_type@ == spec_event_type(self.spec_kind()),
            r.tool_name == spec_tool_name(*self),
    {
        let tool_name = match self {
            Config::GenericAnalysis(p) => Some(p.analyzer_exe.clone()),
            Config::GenericGenerator(p) => Some(p.generator_exe.clone()),
            _ => None,
        };
        TaskStartEvent { event_type: self.event_type(), tool_name }
    }

    /// Records exactly one task-start event, leaving the properties alone.
    pub fn report_event(&self, ctx: &mut TelemetryContext)
        ensures
            final(ctx).properties == old(ctx).properties,
            final(ctx).events@.len() == old(ctx).events@.len() + 1,
            final(ctx).events@ == old(ctx).events@.push(final(ctx).events@.last()),
            final(ctx).events@.last().event_type@ == spec_event_type(self.spec_kind()),
            final(ctx).events@.last().tool_name == spec_tool_name(*self),
    {
        let ev = self.start_event();
        ctx.emit(ev);
    }
}

/// The loader accepts a document exactly when it carries a known, available
/// discriminant, a well-shaped shared envelope, and the tool path its kind
/// reports.
pub open spec fn spec_load_ok(doc: Document, caps: HostCapabilities) -> bool {
    &&& doc.task_type matches Some(t) && kind_of_tag(t@) matches Some(k) && kind_available(k, caps)
        && (k == TaskKind::GenericAnalysis ==> doc.analyzer_exe is Some)
        && (k == TaskKind::GenericGenerator ==> doc.generator_exe is Some)
    &&& doc.common matches Some(c) && raw_common_ok(c)
}

/// The error the loader reports, discriminant problems first.
pub open spec fn spec_load_err(doc: Document, caps: HostCapabilities) -> SchemaError {
    if doc.task_type is None {
        SchemaError::MissingDiscriminant
    } else if kind_of_tag(doc.task_type->0@) is None {
        SchemaError::UnrecognizedDiscriminant
    } else if !kind_available(kind_of_tag(doc.task_type->0@)->0, caps) {
        SchemaError::UnrecognizedDiscriminant
    } else {
        SchemaError::MalformedPayload
    }
}

/// The envelope a well-shaped raw envelope loads to: identifiers parsed,
/// the default memory threshold applied, and the setup directory taken
/// from the caller, never from the document.
pub open spec fn common_of_raw(c: RawCommon, setup_dir: String) -> CommonConfig
    recommends
        raw_common_ok(c),
{
    CommonConfig {
        job_id: uuid_of(c.job_id->0@)->0,
        task_id: uuid_of(c.task_id->0@)->0,
        instance_id: uuid_of(c.instance_id->0@)->0,
        heartbeat_queue: c.heartbeat_queue,
        instance_telemetry_key: c.instance_telemetry_key,
        microsoft_telemetry_key: c.microsoft_telemetry_key,
        logs: c.logs,
        setup_dir,
        min_available_memory_mb: if c.min_available_memory_mb is Some {
            c.min_available_memory_mb->0
        } else {
            DEFAULT_MIN_AVAILABLE_MEMORY_MB
        },
        machine_identity: MachineIdentity {
            machine_id: uuid_of(c.machine_identity->0.machine_id->0@)->0,
            machine_name: c.machine_identity->0.machine_name->0,
            scaleset_name: c.machine_identity->0.scaleset_name,
        },
        from_agent_to_task_endpoint: c.from_agent_to_task_endpoint,
        from_task_to_agent_endpoint: c.from_task_to_agent_endpoint,
    }
}

/// How a successfully loaded configuration relates to its document: the
/// variant matches the tag, the envelope is the document's with the
/// caller's setup directory, and the reported tool is the document's.
pub open spec fn config_from_doc(doc: Document, setup_dir: String, c: Config) -> bool {
    &&& c.spec_kind() == kind_of_tag(doc.task_type->0@)->0
    &&& c.spec_common() == common_of_raw(doc.common->0, setup_dir)
    &&& (c matches Config::GenericAnalysis(p) ==> p.analyzer_exe == doc.analyzer_exe->0)
    &&& (c matches Config::GenericGenerator(p) ==> p.generator_exe == doc.generator_exe->0)
}

/// The loader's whole contract over a document.
pub open spec fn load_result_matches(
    doc: Document,
    setup_dir: String,
    caps: HostCapabilities,
    r: Result<Config, SchemaError>,
) -> bool {
    &&& (r is Ok <==> spec_load_ok(doc, caps))
    &&& (r matches Ok(c) ==> config_from_doc(doc, setup_dir, c))
    &&& (r matches Err(e) ==> e == spec_load_err(doc, caps))
}

/// Loads the shared envelope out of its raw form, the caller's setup
/// directory replacing the document's.
fn build_common(raw: RawCommon, setup_dir: String) -> (r: Option<CommonConfig>)
    ensures
        r is Some <==> raw_common_ok(raw),
        r matches Some(c) ==> c == common_of_raw(raw, setup_dir),
{
    let job_id = match &raw.job_id {
        Some(s) => match parse_uuid(s) {
            Some(u) => u,
            None => { return None; },
        },
        None => { return None; },
    };
    let task_id = match &raw.task_id {
        Some(s) => match parse_uuid(s) {
            Some(u) => u,
            None => { return None; },
        },
        None => { return None; },
    };
    let instance_id = match &raw.instance_id {
        Some(s) => match parse_uuid(s) {
            Some(u) => u,
            None => { return None; },
        },
        None => { return None; },
    };
    if let Some(u) = &raw.heartbeat_queue {
        if !url_is_valid(u) {
            return None;
        }
    }
    if let Some(u) = &raw.logs {
        if !url_is_valid(u) {
            return None;
        }
    }
    let RawCommon {
        job_id: _,
        task_id: _,
        instance_id: _,
        heartbeat_queue,
        instance_telemetry_key,
        microsoft_telemetry_key,
        logs,
        setup_dir: _,
        min_available_memory_mb,
        machine_identity,
        from_agent_to_task_endpoint,
        from_task_to_agent_endpoint,
    } = raw;
    let mi = match machine_identity {
        Some(m) => m,
        None => { return None; },
    };
    let machine_id = match &mi.machine_id {
        Some(s) => match parse_uuid(s) {
            Some(u) => u,
            None => { return None; },
        },
        None => { return None; },
    };
    let machine_name = match mi.machine_name {
        Some(n) => n,
        None => { return None; },
    };
    let min_available_memory_mb: u64 = match min_available_memory_mb {
        Some(v) => v,
        None => DEFAULT_MIN_AVAILABLE_MEMORY_MB,
    };
    Some(CommonConfig {
        job_id,
        task_id,
        instance_id,
        heartbeat_queue,
        instance_telemetry_key,
        microsoft_telemetry_key,
        logs,
        setup_dir,
        min_available_memory_mb,
        machine_identity: MachineIdentity {
            machine_id,
            machine_name,
            scaleset_name: mi.scaleset_name,
        },
        from_agent_to_task_endpoint,
        from_task_to_agent_endpoint,
    })
}

/// Whether a work kind is available under the host's capabilities.
fn kind_is_available(k: TaskKind, caps: &HostCapabilities) -> (r: bool)
    ensures
        r == kind_available(k, *caps),
{
    match k {
        TaskKind::Coverage => caps.coverage,
        TaskKind::DotnetCoverage => caps.dotnet_coverage,
        TaskKind::LibFuzzerDotnetFuzz => caps.libfuzzer_dotnet_fuzz,
        _ => true,
    }
}

/// Interprets a document against the closed union: reads the discriminant,
/// loads the shared envelope, and unconditionally overwrites the setup
/// directory with the caller's value.
pub fn load_document(doc: Document, setup_dir: String, caps: &HostCapabilities) -> (r: Result<
    Config,
    SchemaError,
>)
    ensures
        load_result_matches(doc, setup_dir, *caps, r),
        r matches Ok(c) ==> c.spec_common().setup_dir == setup_dir,
{
    let tag = match &doc.task_type {
        Some(t) => t,
        None => { return Err(SchemaError::MissingDiscriminant); },
    };
    let kind = match tag_kind(tag) {
        Some(k) => k,
        None => { return Err(SchemaError::UnrecognizedDiscriminant); },
    };
    if !kind_is_available(kind, caps) {
        return Err(SchemaError::UnrecognizedDiscriminant);
    }
    let Document { task_type: _, common, analyzer_exe, generator_exe } = doc;
    let raw = match common {
        Some(c) => c,
        None => { return Err(SchemaError::MalformedPayload); },
    };
    let common = match build_common(raw, setup_dir) {
        Some(c) => c,
        None => { return Err(SchemaError::MalformedPayload); },
    };
    match kind {
        TaskKind::Coverage => Ok(Config::Coverage(TaskPayload { common })),
        TaskKind::DotnetCoverage => Ok(Config::DotnetCoverage(TaskPayload { common })),
        TaskKind::DotnetCrashReport => Ok(Config::DotnetCrashReport(TaskPayload { common })),
        TaskKind::LibFuzzerDotnetFuzz => Ok(Config::LibFuzzerDotnetFuzz(TaskPayload { common })),
        TaskKind::LibFuzzerFuzz => Ok(Config::LibFuzzerFuzz(TaskPayload { common })),
        TaskKind::LibFuzzerReport => Ok(Config::LibFuzzerReport(TaskPayload { common })),
        TaskKind::LibFuzzerMerge => Ok(Config::LibFuzzerMerge(TaskPayload { common })),
        TaskKind::LibFuzzerRegression => Ok(Config::LibFuzzerRegression(TaskPayload { common })),
        TaskKind::GenericAnalysis => {
            let exe = match analyzer_exe {
                Some(e) => e,
                None => { return Err(SchemaError::MalformedPayload); },
            };
            Ok(Config::GenericAnalysis(AnalysisPayload { common, analyzer_exe: exe }))
        },
        TaskKind::GenericGenerator => {
            let exe = match generator_exe {
                Some(e) => e,
                None => { return Err(SchemaError::MalformedPayload); },
            };
            Ok(Config::GenericGenerator(GeneratorPayload { common, generator_exe: exe }))
        },
        TaskKind::GenericSupervisor => Ok(Config::GenericSupervisor(TaskPayload { common })),
        TaskKind::GenericMerge => Ok(Config::GenericMerge(TaskPayload { common })),
        TaskKind::GenericReport => Ok(Config::GenericReport(TaskPayload { common })),
        TaskKind::GenericRegression => Ok(Config::GenericRegression(TaskPayload { common })),
    }
}

} // verus!
