use task_bootstrap::common::{default_min_available_memory_mb, CommonConfig, ContainerType};
use task_bootstrap::config::{
    load_document, Config, HostCapabilities, SchemaError, TaskKind,
};
use task_bootstrap::document::{Document, RawCommon, RawMachineIdentity};

const JOB_ID: &str = "00000000-0000-0000-0000-000000000001";
const TASK_ID: &str = "00000000-0000-0000-0000-000000000002";
const INSTANCE_ID: &str = "00000000-0000-0000-0000-000000000003";
const MACHINE_ID: &str = "4f3e51c1-9f04-4d9c-8335-c62b0f5fc76b";

fn sample_identity() -> RawMachineIdentity {
    RawMachineIdentity {
        machine_id: Some(MACHINE_ID.to_string()),
        machine_name: Some("host-7".to_string()),
        scaleset_name: None,
    }
}

fn sample_common() -> RawCommon {
    RawCommon {
        job_id: Some(JOB_ID.to_string()),
        task_id: Some(TASK_ID.to_string()),
        instance_id: Some(INSTANCE_ID.to_string()),
        heartbeat_queue: None,
        instance_telemetry_key: None,
        microsoft_telemetry_key: None,
        logs: None,
        setup_dir: None,
        min_available_memory_mb: None,
        machine_identity: Some(sample_identity()),
        from_agent_to_task_endpoint: None,
        from_task_to_agent_endpoint: None,
    }
}

fn doc_with_tag(tag: &str) -> Document {
    Document {
        task_type: Some(tag.to_string()),
        common: Some(sample_common()),
        analyzer_exe: Some("analyzer.exe".to_string()),
        generator_exe: Some("generator.exe".to_string()),
    }
}

fn load_tag(tag: &str) -> Result<Config, SchemaError> {
    load_document(doc_with_tag(tag), "/setup".to_string(), &HostCapabilities::all())
}

#[test]
fn every_tag_and_alias_selects_its_kind() {
    let cases: Vec<(&str, TaskKind)> = vec![
        ("Coverage", TaskKind::Coverage),
        ("coverage", TaskKind::Coverage),
        ("DotnetCoverage", TaskKind::DotnetCoverage),
        ("dotnet_coverage", TaskKind::DotnetCoverage),
        ("DotnetCrashReport", TaskKind::DotnetCrashReport),
        ("dotnet_crash_report", TaskKind::DotnetCrashReport),
        ("LibFuzzerDotnetFuzz", TaskKind::LibFuzzerDotnetFuzz),
        ("libfuzzer_dotnet_fuzz", TaskKind::LibFuzzerDotnetFuzz),
        ("LibFuzzerFuzz", TaskKind::LibFuzzerFuzz),
        ("libfuzzer_fuzz", TaskKind::LibFuzzerFuzz),
        ("LibFuzzerReport", TaskKind::LibFuzzerReport),
        ("libfuzzer_crash_report", TaskKind::LibFuzzerReport),
        ("LibFuzzerMerge", TaskKind::LibFuzzerMerge),
        ("libfuzzer_merge", TaskKind::LibFuzzerMerge),
        ("LibFuzzerRegression", TaskKind::LibFuzzerRegression),
        ("libfuzzer_regression", TaskKind::LibFuzzerRegression),
        ("GenericAnalysis", TaskKind::GenericAnalysis),
        ("generic_analysis", TaskKind::GenericAnalysis),
        ("GenericGenerator", TaskKind::GenericGenerator),
        ("generic_generator", TaskKind::GenericGenerator),
        ("GenericSupervisor", TaskKind::GenericSupervisor),
        ("generic_supervisor", TaskKind::GenericSupervisor),
        ("GenericMerge", TaskKind::GenericMerge),
        ("generic_merge", TaskKind::GenericMerge),
        ("GenericReport", TaskKind::GenericReport),
        ("generic_crash_report", TaskKind::GenericReport),
        ("GenericRegression", TaskKind::GenericRegression),
        ("generic_regression", TaskKind::GenericRegression),
    ];
    for (tag, kind) in cases {
        let config = load_tag(tag).unwrap();
        assert_eq!(config.kind(), kind, "tag {tag}");
    }
}

#[test]
fn loaded_common_is_populated_from_the_document() {
    let mut raw = sample_common();
    raw.heartbeat_queue = Some("https://queues.example.com/hb".to_string());
    raw.logs = Some("https://logs.example.com/".to_string());
    raw.instance_telemetry_key = Some("instance-key".to_string());
    raw.microsoft_telemetry_key = Some("ms-key".to_string());
    raw.from_agent_to_task_endpoint = Some("/tmp/a2t".to_string());
    raw.from_task_to_agent_endpoint = Some("/tmp/t2a".to_string());
    raw.machine_identity = Some(RawMachineIdentity {
        machine_id: Some(MACHINE_ID.to_string()),
        machine_name: Some("host-7".to_string()),
        scaleset_name: Some("fleet-3".to_string()),
    });
    let doc = Document {
        task_type: Some("libfuzzer_fuzz".to_string()),
        common: Some(raw),
        analyzer_exe: None,
        generator_exe: None,
    };
    let config = load_document(doc, "/setup".to_string(), &HostCapabilities::all()).unwrap();
    let common: &CommonConfig = config.common();
    assert_eq!(common.job_id, uuid::Uuid::parse_str(JOB_ID).unwrap().as_u128());
    assert_eq!(common.task_id, uuid::Uuid::parse_str(TASK_ID).unwrap().as_u128());
    assert_eq!(common.instance_id, 3);
    assert_eq!(common.heartbeat_queue.as_deref(), Some("https://queues.example.com/hb"));
    assert_eq!(common.logs.as_deref(), Some("https://logs.example.com/"));
    assert_eq!(common.instance_telemetry_key.as_deref(), Some("instance-key"));
    assert_eq!(common.microsoft_telemetry_key.as_deref(), Some("ms-key"));
    assert_eq!(common.from_agent_to_task_endpoint.as_deref(), Some("/tmp/a2t"));
    assert_eq!(common.from_task_to_agent_endpoint.as_deref(), Some("/tmp/t2a"));
    assert_eq!(
        common.machine_identity.machine_id,
        uuid::Uuid::parse_str(MACHINE_ID).unwrap().as_u128()
    );
    assert_eq!(common.machine_identity.machine_name, "host-7");
    assert_eq!(common.machine_identity.scaleset_name.as_deref(), Some("fleet-3"));
}

#[test]
fn setup_dir_always_comes_from_the_caller() {
    let mut doc = doc_with_tag("generic_merge");
    doc.common.as_mut().unwrap().setup_dir = Some("/from/document".to_string());
    let config = load_document(doc, "/from/caller".to_string(), &HostCapabilities::all()).unwrap();
    assert_eq!(config.common().setup_dir, "/from/caller");

    let doc = doc_with_tag("generic_merge");
    let config = load_document(doc, "/from/caller".to_string(), &HostCapabilities::all()).unwrap();
    assert_eq!(config.common().setup_dir, "/from/caller");
}

#[test]
fn set_setup_dir_replaces_only_the_setup_dir() {
    let mut config = load_tag("generic_analysis").unwrap();
    let before = config.clone();
    config.set_setup_dir("/moved".to_string());
    assert_eq!(config.common().setup_dir, "/moved");
    assert_eq!(config.kind(), before.kind());
    assert_eq!(config.common().job_id, before.common().job_id);
    assert_eq!(
        config.common().machine_identity,
        before.common().machine_identity
    );
    match (&config, &before) {
        (Config::GenericAnalysis(a), Config::GenericAnalysis(b)) => {
            assert_eq!(a.analyzer_exe, b.analyzer_exe)
        }
        _ => panic!("variant changed"),
    }
}

#[test]
fn missing_discriminant_is_a_schema_error() {
    let mut doc = doc_with_tag("coverage");
    doc.task_type = None;
    let r = load_document(doc, "/setup".to_string(), &HostCapabilities::all());
    assert_eq!(r, Err(SchemaError::MissingDiscriminant));
}

#[test]
fn unrecognized_discriminant_is_a_schema_error() {
    assert_eq!(load_tag("karaoke"), Err(SchemaError::UnrecognizedDiscriminant));
    // Tags are matched case-sensitively.
    assert_eq!(load_tag("COVERAGE"), Err(SchemaError::UnrecognizedDiscriminant));
    assert_eq!(load_tag(""), Err(SchemaError::UnrecognizedDiscriminant));
}

#[test]
fn platform_gated_kinds_follow_host_capabilities() {
    let none = HostCapabilities {
        coverage: false,
        dotnet_coverage: false,
        libfuzzer_dotnet_fuzz: false,
    };
    for tag in ["coverage", "dotnet_coverage", "libfuzzer_dotnet_fuzz"] {
        let r = load_document(doc_with_tag(tag), "/setup".to_string(), &none);
        assert_eq!(r, Err(SchemaError::UnrecognizedDiscriminant), "tag {tag}");
    }
    // Ungated kinds load on any host.
    let r = load_document(doc_with_tag("generic_merge"), "/setup".to_string(), &none);
    assert!(r.is_ok());
}

#[test]
fn min_available_memory_defaults_to_100_when_absent() {
    assert_eq!(default_min_available_memory_mb(), 100);
    let config = load_tag("generic_supervisor").unwrap();
    assert_eq!(config.common().min_available_memory_mb, 100);
}

#[test]
fn min_available_memory_is_preserved_verbatim_when_present() {
    for value in [0u64, 1, 100, 512, u64::MAX] {
        let mut doc = doc_with_tag("generic_supervisor");
        doc.common.as_mut().unwrap().min_available_memory_mb = Some(value);
        let config = load_document(doc, "/setup".to_string(), &HostCapabilities::all()).unwrap();
        assert_eq!(config.common().min_available_memory_mb, value);
    }
}

#[test]
fn missing_envelope_is_malformed() {
    let mut doc = doc_with_tag("coverage");
    doc.common = None;
    let r = load_document(doc, "/setup".to_string(), &HostCapabilities::all());
    assert_eq!(r, Err(SchemaError::MalformedPayload));
}

#[test]
fn unparsable_identifiers_are_malformed() {
    for field in ["job", "task", "instance", "machine"] {
        let mut raw = sample_common();
        match field {
            "job" => raw.job_id = Some("not-a-uuid".to_string()),
            "task" => raw.task_id = Some("not-a-uuid".to_string()),
            "instance" => raw.instance_id = Some("not-a-uuid".to_string()),
            _ => {
                raw.machine_identity.as_mut().unwrap().machine_id =
                    Some("not-a-uuid".to_string())
            }
        }
        let doc = Document {
            task_type: Some("coverage".to_string()),
            common: Some(raw),
            analyzer_exe: None,
            generator_exe: None,
        };
        let r = load_document(doc, "/setup".to_string(), &HostCapabilities::all());
        assert_eq!(r, Err(SchemaError::MalformedPayload), "field {field}");
    }
}

#[test]
fn missing_identifiers_are_malformed() {
    let mut raw = sample_common();
    raw.job_id = None;
    let doc = Document {
        task_type: Some("coverage".to_string()),
        common: Some(raw),
        analyzer_exe: None,
        generator_exe: None,
    };
    let r = load_document(doc, "/setup".to_string(), &HostCapabilities::all());
    assert_eq!(r, Err(SchemaError::MalformedPayload));

    let mut raw = sample_common();
    raw.machine_identity = None;
    let doc = Document {
        task_type: Some("coverage".to_string()),
        common: Some(raw),
        analyzer_exe: None,
        generator_exe: None,
    };
    let r = load_document(doc, "/setup".to_string(), &HostCapabilities::all());
    assert_eq!(r, Err(SchemaError::MalformedPayload));

    let mut raw = sample_common();
    raw.machine_identity.as_mut().unwrap().machine_name = None;
    let doc = Document {
        task_type: Some("coverage".to_string()),
        common: Some(raw),
        analyzer_exe: None,
        generator_exe: None,
    };
    let r = load_document(doc, "/setup".to_string(), &HostCapabilities::all());
    assert_eq!(r, Err(SchemaError::MalformedPayload));
}

#[test]
fn invalid_queue_addresses_are_malformed() {
    let mut raw = sample_common();
    raw.heartbeat_queue = Some("not a url".to_string());
    let doc = Document {
        task_type: Some("coverage".to_string()),
        common: Some(raw),
        analyzer_exe: None,
        generator_exe: None,
    };
    let r = load_document(doc, "/setup".to_string(), &HostCapabilities::all());
    assert_eq!(r, Err(SchemaError::MalformedPayload));

    let mut raw = sample_common();
    raw.logs = Some("::::".to_string());
    let doc = Document {
        task_type: Some("coverage".to_string()),
        common: Some(raw),
        analyzer_exe: None,
        generator_exe: None,
    };
    let r = load_document(doc, "/setup".to_string(), &HostCapabilities::all());
    assert_eq!(r, Err(SchemaError::MalformedPayload));
}

#[test]
fn tool_kinds_require_their_tool_path() {
    let mut doc = doc_with_tag("generic_analysis");
    doc.analyzer_exe = None;
    let r = load_document(doc, "/setup".to_string(), &HostCapabilities::all());
    assert_eq!(r, Err(SchemaError::MalformedPayload));

    let mut doc = doc_with_tag("generic_generator");
    doc.generator_exe = None;
    let r = load_document(doc, "/setup".to_string(), &HostCapabilities::all());
    assert_eq!(r, Err(SchemaError::MalformedPayload));

    match load_tag("generic_analysis").unwrap() {
        Config::GenericAnalysis(p) => assert_eq!(p.analyzer_exe, "analyzer.exe"),
        other => panic!("wrong variant: {other:?}"),
    }
    match load_tag("generic_generator").unwrap() {
        Config::GenericGenerator(p) => assert_eq!(p.generator_exe, "generator.exe"),
        other => panic!("wrong variant: {other:?}"),
    }
}

#[test]
fn heartbeat_request_mirrors_the_envelope() {
    let mut raw = sample_common();
    raw.heartbeat_queue = Some("https://queues.example.com/hb".to_string());
    let doc = Document {
        task_type: Some("libfuzzer_merge".to_string()),
        common: Some(raw),
        analyzer_exe: None,
        generator_exe: None,
    };
    let config = load_document(doc, "/setup".to_string(), &HostCapabilities::all()).unwrap();
    let req = config.common().init_heartbeat(Some(250)).unwrap();
    assert_eq!(req.queue_url, "https://queues.example.com/hb");
    assert_eq!(req.job_id, 1);
    assert_eq!(req.task_id, 2);
    assert_eq!(req.initial_delay_ms, Some(250));
    assert_eq!(req.machine_name, "host-7");

    // No queue configured: heartbeating is disabled, not an error.
    let config = load_tag("libfuzzer_merge").unwrap();
    assert!(config.common().init_heartbeat(None).is_none());
}

#[test]
fn container_type_reads_its_tag_and_alias() {
    assert_eq!(ContainerType::from_tag(&"Inputs".to_string()), Some(ContainerType::Inputs));
    assert_eq!(ContainerType::from_tag(&"inputs".to_string()), Some(ContainerType::Inputs));
    assert_eq!(ContainerType::from_tag(&"outputs".to_string()), None);
}
