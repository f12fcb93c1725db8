//! Reading the configuration document out of its JSON text.
//!
//! Parsing is done by serde_json; this module declares its document value
//! as an opaque type, names what it holds with the ghost [`JsonVal`] model,
//! and extracts the [`Document`] from it in verified code, field by field.

use vstd::prelude::*;
use crate::config::{Config, HostCapabilities, SchemaError, load_document, load_result_matches};
use crate::document::{Document, RawCommon, RawMachineIdentity};

verus! {

/// A structured document value, as the contracts see it: the JSON data
/// model over plain values, numbers split by whether they are readable as
/// an unsigned 64-bit integer (the only number the schema holds).
pub ghost enum JsonVal {
    Null,
    Bool(bool),
    /// A number representable as an unsigned 64-bit integer.
    UInt(u64),
    /// Any other number.
    OtherNum,
    Str(Seq<char>),
    Arr(Seq<JsonVal>),
    Obj(Map<Seq<char>, JsonVal>),
}

/// What a parsed document value holds.
pub uninterp spec fn json_view(v: serde_json::Value) -> JsonVal;

/// What parsing a text as JSON yields: `None` where the text is not valid
/// JSON.
pub uninterp spec fn json_doc_of(text: Seq<char>) -> Option<JsonVal>;

#[verifier::external_type_specification]
#[verifier::external_body]
pub struct ExValue(serde_json::Value);

/// Relies on `serde_json::from_str::<Value>`: the parse depends on the text
/// alone.
#[verifier::external_body]
pub(crate) fn parse_json(text: &str) -> (r: Option<serde_json::Value>)
    ensures
        r is Some <==> json_doc_of(text@) is Some,
        r matches Some(v) ==> Some(json_view(v)) == json_doc_of(text@),
{
    match serde_json::from_str::<serde_json::Value>(text) {
        Ok(v) => Some(v),
        Err(_) => None,
    }
}

/// Relies on `serde_json::Value::is_object`.
#[verifier::external_body]
pub(crate) fn json_is_object(v: &serde_json::Value) -> (r: bool)
    ensures
        r == (json_view(*v) is Obj),
{
    v.is_object()
}

/// Relies on `serde_json::Value::get` with a string key: on an object, a
/// lookup in its map; `None` on every other value.
#[verifier::external_body]
pub(crate) fn json_get<'a>(v: &'a serde_json::Value, key: &str) -> (r: Option<
    &'a serde_json::Value,
>)
    ensures
        json_view(*v) matches JsonVal::Obj(m) ==> {
            &&& r is Some <==> m.contains_key(key@)
            &&& (r matches Some(f) ==> json_view(*f) == m[key@])
        },
        !(json_view(*v) is Obj) ==> r is None,
{
    v.get(key)
}

/// Relies on `serde_json::Value::as_str`: `Some` exactly on a JSON string,
/// handing back its characters.
#[verifier::external_body]
pub(crate) fn json_as_str<'a>(v: &'a serde_json::Value) -> (r: Option<&'a str>)
    ensures
        r is Some <==> json_view(*v) is Str,
        r matches Some(s) ==> JsonVal::Str(s@) == json_view(*v),
{
    v.as_str()
}

/// Relies on `serde_json::Value::as_u64`: `Some` exactly on a number
/// representable as an unsigned 64-bit integer.
#[verifier::external_body]
pub(crate) fn json_as_u64(v: &serde_json::Value) -> (r: Option<u64>)
    ensures
        r is Some <==> json_view(*v) is UInt,
        r matches Some(n) ==> JsonVal::UInt(n) == json_view(*v),
{
    v.as_u64()
}

/// The map of an object value.
pub open spec fn obj_map(j: JsonVal) -> Map<Seq<char>, JsonVal>
    recommends
        j is Obj,
{
    match j {
        JsonVal::Obj(m) => m,
        _ => Map::empty(),
    }
}

/// A field of an object is either absent or a string.
pub open spec fn str_field_ok(m: Map<Seq<char>, JsonVal>, k: Seq<char>) -> bool {
    m.contains_key(k) ==> m[k] is Str
}

/// The characters of an object's string field, where present.
pub open spec fn str_field(m: Map<Seq<char>, JsonVal>, k: Seq<char>) -> Option<Seq<char>>
    recommends
        str_field_ok(m, k),
{
    if m.contains_key(k) {
        match m[k] {
            JsonVal::Str(s) => Some(s),
            _ => None,
        }
    } else {
        None
    }
}

/// A field of an object is either absent or an unsigned 64-bit number.
pub open spec fn uint_field_ok(m: Map<Seq<char>, JsonVal>, k: Seq<char>) -> bool {
    m.contains_key(k) ==> m[k] is UInt
}

/// The value of an object's numeric field, where present.
pub open spec fn uint_field(m: Map<Seq<char>, JsonVal>, k: Seq<char>) -> Option<u64>
    recommends
        uint_field_ok(m, k),
{
    if m.contains_key(k) {
        match m[k] {
            JsonVal::UInt(n) => Some(n),
            _ => None,
        }
    } else {
        None
    }
}

/// An optional string of the document model carries exactly an optional
/// field's characters.
pub open spec fn opt_str_matches(o: Option<String>, f: Option<Seq<char>>) -> bool {
    &&& o is Some <==> f is Some
    &&& (o matches Some(s) ==> Some(s@) == f)
}

/// The host-identity object has the shape the extraction accepts: every
/// present field a string.
pub open spec fn identity_extract_ok(j: JsonVal) -> bool {
    &&& j is Obj
    &&& str_field_ok(obj_map(j), "machine_id"@)
    &&& str_field_ok(obj_map(j), "machine_name"@)
    &&& str_field_ok(obj_map(j), "scaleset_name"@)
}

/// How an extracted host identity relates to its object.
pub open spec fn identity_matches(j: JsonVal, m: RawMachineIdentity) -> bool {
    &&& opt_str_matches(m.machine_id, str_field(obj_map(j), "machine_id"@))
    &&& opt_str_matches(m.machine_name, str_field(obj_map(j), "machine_name"@))
    &&& opt_str_matches(m.scaleset_name, str_field(obj_map(j), "scaleset_name"@))
}

/// The shared-envelope object has the shape the extraction accepts: every
/// present field of its type, and the host identity an object of the right
/// shape.
pub open spec fn common_extract_ok(j: JsonVal) -> bool {
    &&& j is Obj
    &&& str_field_ok(obj_map(j), "job_id"@)
    &&& str_field_ok(obj_map(j), "task_id"@)
    &&& str_field_ok(obj_map(j), "instance_id"@)
    &&& str_field_ok(obj_map(j), "heartbeat_queue"@)
    &&& str_field_ok(obj_map(j), "instance_telemetry_key"@)
    &&& str_field_ok(obj_map(j), "microsoft_telemetry_key"@)
    &&& str_field_ok(obj_map(j), "logs"@)
    &&& str_field_ok(obj_map(j), "setup_dir"@)
    &&& uint_field_ok(obj_map(j), "min_available_memory_mb"@)
    &&& str_field_ok(obj_map(j), "from_agent_to_task_endpoint"@)
    &&& str_field_ok(obj_map(j), "from_task_to_agent_endpoint"@)
    &&& (obj_map(j).contains_key("machine_identity"@) ==> identity_extract_ok(
        obj_map(j)["machine_identity"@],
    ))
}

/// How an extracted raw envelope relates to its object.
pub open spec fn common_matches(j: JsonVal, c: RawCommon) -> bool {
    &&& opt_str_matches(c.job_id, str_field(obj_map(j), "job_id"@))
    &&& opt_str_matches(c.task_id, str_field(obj_map(j), "task_id"@))
    &&& opt_str_matches(c.instance_id, str_field(obj_map(j), "instance_id"@))
    &&& opt_str_matches(c.heartbeat_queue, str_field(obj_map(j), "heartbeat_queue"@))
    &&& opt_str_matches(c.instance_telemetry_key, str_field(obj_map(j), "instance_telemetry_key"@))
    &&& opt_str_matches(
        c.microsoft_telemetry_key,
        str_field(obj_map(j), "microsoft_telemetry_key"@),
    )
    &&& opt_str_matches(c.logs, str_field(obj_map(j), "logs"@))
    &&& opt_str_matches(c.setup_dir, str_field(obj_map(j), "setup_dir"@))
    &&& c.min_available_memory_mb == uint_field(obj_map(j), "min_available_memory_mb"@)
    &&& opt_str_matches(
        c.from_agent_to_task_endpoint,
        str_field(obj_map(j), "from_agent_to_task_endpoint"@),
    )
    &&& opt_str_matches(
        c.from_task_to_agent_endpoint,
        str_field(obj_map(j), "from_task_to_agent_endpoint"@),
    )
    &&& (c.machine_identity is Some <==> obj_map(j).contains_key("machine_identity"@))
    &&& (c.machine_identity matches Some(m) ==> identity_matches(
        obj_map(j)["machine_identity"@],
        m,
    ))
}

/// The document has the shape the extraction accepts: an object whose
/// known fields have their types.
pub open spec fn extract_ok(j: JsonVal) -> bool {
    &&& j is Obj
    &&& str_field_ok(obj_map(j), "task_type"@)
    &&& str_field_ok(obj_map(j), "analyzer_exe"@)
    &&& str_field_ok(obj_map(j), "generator_exe"@)
    &&& (obj_map(j).contains_key("common"@) ==> common_extract_ok(obj_map(j)["common"@]))
}

/// How an extracted document relates to its object.
pub open spec fn doc_matches(j: JsonVal, d: Document) -> bool {
    &&& opt_str_matches(d.task_type, str_field(obj_map(j), "task_type"@))
    &&& opt_str_matches(d.analyzer_exe, str_field(obj_map(j), "analyzer_exe"@))
    &&& opt_str_matches(d.generator_exe, str_field(obj_map(j), "generator_exe"@))
    &&& (d.common is Some <==> obj_map(j).contains_key("common"@))
    &&& (d.common matches Some(c) ==> common_matches(obj_map(j)["common"@], c))
}

/// Reads an optional string field of an object value; `Err` where the
/// field is present with another type.
fn get_str_field(v: &serde_json::Value, key: &str) -> (r: Result<Option<String>, ()>)
    requires
        json_view(*v) is Obj,
    ensures
        r is Ok <==> str_field_ok(obj_map(json_view(*v)), key@),
        r matches Ok(o) ==> opt_str_matches(o, str_field(obj_map(json_view(*v)), key@)),
{
    match json_get(v, key) {
        None => Ok(None),
        Some(f) => match json_as_str(f) {
            Some(s) => Ok(Some(s.to_owned())),
            None => Err(()),
        },
    }
}

/// Reads an optional numeric field of an object value; `Err` where the
/// field is present with another type.
fn get_u64_field(v: &serde_json::Value, key: &str) -> (r: Result<Option<u64>, ()>)
    requires
        json_view(*v) is Obj,
    ensures
        r is Ok <==> uint_field_ok(obj_map(json_view(*v)), key@),
        r matches Ok(o) ==> o == uint_field(obj_map(json_view(*v)), key@),
{
    match json_get(v, key) {
        None => Ok(None),
        Some(f) => match json_as_u64(f) {
            Some(n) => Ok(Some(n)),
            None => Err(()),
        },
    }
}

/// Extracts the host identity out of its object.
fn extract_identity(v: &serde_json::Value) -> (r: Result<RawMachineIdentity, ()>)
    ensures
        r is Ok <==> identity_extract_ok(json_view(*v)),
        r matches Ok(m) ==> identity_matches(json_view(*v), m),
{
    if !json_is_object(v) {
        return Err(());
    }
    let machine_id = match get_str_field(v, "machine_id") {
        Ok(o) => o,
        Err(e) => { return Err(e); },
    };
    let machine_name = match get_str_field(v, "machine_name") {
        Ok(o) => o,
        Err(e) => { return Err(e); },
    };
    let scaleset_name = match get_str_field(v, "scaleset_name") {
        Ok(o) => o,
        Err(e) => { return Err(e); },
    };
    Ok(RawMachineIdentity { machine_id, machine_name, scaleset_name })
}

/// Extracts the raw shared envelope out of its object.
fn extract_common(v: &serde_json::Value) -> (r: Result<RawCommon, ()>)
    ensures
        r is Ok <==> common_extract_ok(json_view(*v)),
        r matches Ok(c) ==> common_matches(json_view(*v), c),
{
    if !json_is_object(v) {
        return Err(());
    }
    let job_id = match get_str_field(v, "job_id") {
        Ok(o) => o,
        Err(e) => { return Err(e); },
    };
    let task_id = match get_str_field(v, "task_id") {
        Ok(o) => o,
        Err(e) => { return Err(e); },
    };
    let instance_id = match get_str_field(v, "instance_id") {
        Ok(o) => o,
        Err(e) => { return Err(e); },
    };
    let heartbeat_queue = match get_str_field(v, "heartbeat_queue") {
        Ok(o) => o,
        Err(e) => { return Err(e); },
    };
    let instance_telemetry_key = match get_str_field(v, "instance_telemetry_key") {
        Ok(o) => o,
        Err(e) => { return Err(e); },
    };
    let microsoft_telemetry_key = match get_str_field(v, "microsoft_telemetry_key") {
        Ok(o) => o,
        Err(e) => { return Err(e); },
    };
    let logs = match get_str_field(v, "logs") {
        Ok(o) => o,
        Err(e) => { return Err(e); },
    };
    let setup_dir = match get_str_field(v, "setup_dir") {
        Ok(o) => o,
        Err(e) => { return Err(e); },
    };
    let min_available_memory_mb = match get_u64_field(v, "min_available_memory_mb") {
        Ok(o) => o,
        Err(e) => { return Err(e); },
    };
    let from_agent_to_task_endpoint = match get_str_field(v, "from_agent_to_task_endpoint") {
        Ok(o) => o,
        Err(e) => { return Err(e); },
    };
    let from_task_to_agent_endpoint = match get_str_field(v, "from_task_to_agent_endpoint") {
        Ok(o) => o,
        Err(e) => { return Err(e); },
    };
    let machine_identity = match json_get(v, "machine_identity") {
        None => None,
        Some(f) => match extract_identity(f) {
            Ok(m) => Some(m),
            Err(e) => { return Err(e); },
        },
    };
    Ok(RawCommon {
        job_id,
        task_id,
        instance_id,
        heartbeat_queue,
        instance_telemetry_key,
        microsoft_telemetry_key,
        logs,
        setup_dir,
        min_available_memory_mb,
        machine_identity,
        from_agent_to_task_endpoint,
        from_task_to_agent_endpoint,
    })
}

/// Extracts the document model out of a parsed value; `Err` where the value
/// is no object or a known field has the wrong type.
pub fn document_from_value(v: &serde_json::Value) -> (r: Result<Document, ()>)
    ensures
        r is Ok <==> extract_ok(json_view(*v)),
        r matches Ok(d) ==> doc_matches(json_view(*v), d),
{
    if !json_is_object(v) {
        return Err(());
    }
    let task_type = match get_str_field(v, "task_type") {
        Ok(o) => o,
        Err(e) => { return Err(e); },
    };
    let analyzer_exe = match get_str_field(v, "analyzer_exe") {
        Ok(o) => o,
        Err(e) => { return Err(e); },
    };
    let generator_exe = match get_str_field(v, "generator_exe") {
        Ok(o) => o,
        Err(e) => { return Err(e); },
    };
    let common = match json_get(v, "common") {
        None => None,
        Some(f) => match extract_common(f) {
            Ok(c) => Some(c),
            Err(e) => { return Err(e); },
        },
    };
    Ok(Document { task_type, common, analyzer_exe, generator_exe })
}

/// Loads a configuration straight from document text: parses it as JSON,
/// extracts the document model, and interprets it against the closed
/// union, the caller's setup directory replacing the document's.
pub fn from_json_str(text: &str, setup_dir: String, caps: &HostCapabilities) -> (r: Result<
    Config,
    SchemaError,
>)
    ensures
        json_doc_of(text@) is None ==> r == Err::<Config, SchemaError>(
            SchemaError::InvalidDocument,
        ),
        json_doc_of(text@) matches Some(j) ==> (!extract_ok(j) ==> r == Err::<Config, SchemaError>(
            SchemaError::MalformedPayload,
        )),
        json_doc_of(text@) matches Some(j) ==> (extract_ok(j) ==> exists|d: Document|
            #[trigger] doc_matches(j, d) && load_result_matches(d, setup_dir, *caps, r)),
        r matches Ok(c) ==> c.spec_common().setup_dir == setup_dir,
{
    let parsed = match parse_json(text) {
        Some(v) => v,
        None => { return Err(SchemaError::InvalidDocument); },
    };
    let doc = match document_from_value(&parsed) {
        Ok(d) => d,
        Err(_) => { return Err(SchemaError::MalformedPayload); },
    };
    load_document(doc, setup_dir, caps)
}

} // verus!
