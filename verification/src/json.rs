//! JSON output for machine consumption.

use vstd::prelude::*;
use serde_json::Value;
use crate::formatter::{
    address_type_label, checksum_label, network_label, network_labels, script_template,
    spec_address_type_label, spec_script_template,
};
use crate::types::{AddressAnalysis, AnalysisView};

verus! {

#[verifier::external_type_specification]
#[verifier::external_body]
pub struct ExJsonError(serde_json::Error);

/// A value of the JSON report: every field is one of these.
#[derive(Debug)]
pub enum JsonValue {
    Null,
    Bool(bool),
    Number(u64),
    Text(String),
    TextList(Vec<String>),
}

/// The mathematical content of a `JsonValue`.
pub enum JsonValueView {
    Null,
    Bool(bool),
    Number(u64),
    Text(Seq<char>),
    TextList(Seq<Seq<char>>),
}

impl DeepView for JsonValue {
    type V = JsonValueView;

    open spec fn deep_view(&self) -> JsonValueView {
        match self {
            JsonValue::Null => JsonValueView::Null,
            JsonValue::Bool(b) => JsonValueView::Bool(*b),
            JsonValue::Number(n) => JsonValueView::Number(*n),
            JsonValue::Text(s) => JsonValueView::Text(s@),
            JsonValue::TextList(l) => JsonValueView::TextList(l.deep_view()),
        }
    }
}

/// The error of rendering the JSON report.
#[derive(Debug)]
pub struct JsonError {
    pub inner: serde_json::Error,
}

/// The pretty-printed text of a JSON object with the given fields, as
/// `serde_json::to_string_pretty` renders it.
pub uninterp spec fn pretty_json(fields: Seq<(Seq<char>, JsonValueView)>) -> Seq<char>;

/// Builds a `serde_json::Value` object from the fields and renders it with
/// `serde_json::to_string_pretty`.
///
/// Trusted: the text is named by `pretty_json`. The crate documents that
/// rendering fails only when a `Serialize` impl fails or a map has keys that
/// are not strings; a `Value` object has neither, so it succeeds.
#[verifier::external_body]
fn to_string_pretty(fields: &Vec<(String, JsonValue)>) -> (r: Result<String, serde_json::Error>)
    ensures
        r is Ok,
        match r {
            Ok(s) => pretty_json(fields.deep_view()) == s@,
            Err(_) => true,
        },
{
    let object: serde_json::Map<String, Value> = fields.iter().map(|(key, value)| (key.clone(), match value {
        JsonValue::Null => Value::Null,
        JsonValue::Bool(b) => Value::Bool(*b),
        JsonValue::Number(n) => Value::from(*n),
        JsonValue::Text(s) => Value::String(s.clone()),
        JsonValue::TextList(l) => Value::from(l.clone()),
    })).collect();
    serde_json::to_string_pretty(&Value::Object(object))
}

/// An optional text as a JSON value: the text, or null.
pub open spec fn text_or_null(value: Option<Seq<char>>) -> JsonValueView {
    match value {
        Some(s) => JsonValueView::Text(s),
        None => JsonValueView::Null,
    }
}

/// The fields of the JSON report of an analysis, in the order they are
/// written.
pub open spec fn spec_json_fields(a: AnalysisView) -> Seq<(Seq<char>, JsonValueView)> {
    seq![
        ("input"@, JsonValueView::Text(a.input)),
        ("valid"@, JsonValueView::Bool(a.is_valid)),
        ("error"@, text_or_null(a.error)),
        ("address_type"@, text_or_null(match a.address_type {
            Some(t) => Some(spec_address_type_label(t)),
            None => None,
        })),
        ("networks"@, JsonValueView::TextList(a.networks.map_values(|n| network_label(n)))),
        ("checksum"@, text_or_null(checksum_label(a.checksum))),
        ("script_pubkey_hex"@, text_or_null(a.script_pubkey_hex)),
        ("script_asm"@, text_or_null(a.script_asm)),
        ("script_template"@, text_or_null(spec_script_template(a.address_type, a.witness_version))),
        ("witness_version"@, match a.witness_version {
            Some(v) => JsonValueView::Number(v as u64),
            None => JsonValueView::Null,
        }),
        ("witness_program_hex"@, text_or_null(a.witness_program_hex)),
        ("payload_explanation"@, text_or_null(a.payload_explanation)),
    ]
}

/// An optional text as a JSON value.
fn text_value(value: &Option<String>) -> (r: JsonValue)
    ensures
        r.deep_view() == text_or_null(value.deep_view()),
{
    match value {
        Some(s) => JsonValue::Text(s.clone()),
        None => JsonValue::Null,
    }
}

/// A named field of the JSON report.
fn field(name: &str, value: JsonValue) -> (r: (String, JsonValue))
    ensures
        r.deep_view() == (name@, value.deep_view()),
{
    (String::from_str(name), value)
}

/// The fields of the JSON report, with explicit strings to avoid type
/// ambiguity.
pub fn json_fields(analysis: &AddressAnalysis) -> (r: Vec<(String, JsonValue)>)
    ensures
        r.deep_view() == spec_json_fields(analysis@),
{
    let mut fields: Vec<(String, JsonValue)> = Vec::new();
    fields.push(field("input", JsonValue::Text(analysis.input.clone())));
    fields.push(field("valid", JsonValue::Bool(analysis.is_valid)));
    fields.push(field("error", text_value(&analysis.error)));
    let address_type = match analysis.address_type {
        Some(t) => Some(address_type_label(t)),
        None => None,
    };
    fields.push(field("address_type", text_value(&address_type)));
    let labels = network_labels(analysis.networks.as_slice());
    assert(labels.deep_view() =~= analysis@.networks.map_values(|n| network_label(n)));
    fields.push(field("networks", JsonValue::TextList(labels)));
    let checksum = match analysis.checksum {
        Some(c) => Some(c.label()),
        None => None,
    };
    fields.push(field("checksum", text_value(&checksum)));
    fields.push(field("script_pubkey_hex", text_value(&analysis.script_pubkey_hex)));
    fields.push(field("script_asm", text_value(&analysis.script_asm)));
    let template = match script_template(analysis.address_type, analysis.witness_version) {
        Some(t) => Some(String::from_str(t)),
        None => None,
    };
    fields.push(field("script_template", text_value(&template)));
    let version = match analysis.witness_version {
        Some(v) => JsonValue::Number(v as u64),
        None => JsonValue::Null,
    };
    fields.push(field("witness_version", version));
    fields.push(field("witness_program_hex", text_value(&analysis.witness_program_hex)));
    fields.push(field("payload_explanation", text_value(&analysis.payload_explanation)));
    assert(fields.deep_view() =~= spec_json_fields(analysis@));
    fields
}

/// Render JSON output for machine consumption. Rendering always succeeds.
pub fn format_json(analysis: &AddressAnalysis) -> (r: Result<String, JsonError>)
    ensures
        r matches Ok(s) && pretty_json(spec_json_fields(analysis@)) == s@,
{
    let fields = json_fields(analysis);
    match to_string_pretty(&fields) {
        Ok(text) => Ok(text),
        Err(inner) => Err(JsonError { inner }),
    }
}

/// The value under `name` in a JSON object with these fields, the last one
/// written winning as in a JSON map; `None` when no field has that name.
pub open spec fn field_value(fields: Seq<(Seq<char>, JsonValueView)>, name: Seq<char>) -> Option<
    JsonValueView,
>
    decreases fields.len(),
{
    if fields.len() == 0 {
        None
    } else if fields.last().0 == name {
        Some(fields.last().1)
    } else {
        field_value(fields.drop_last(), name)
    }
}

/// The JSON report has twelve fields with different names, and each carries
/// the analysis field of the same name: texts as strings or null, the
/// validity as a boolean, the type by its short label, the networks by
/// their labels, the checksum by its name, the witness version as a number.
pub proof fn lemma_json_fields_carry_analysis(a: AnalysisView)
    ensures
        spec_json_fields(a).len() == 12,
        forall|i: int, j: int|
            0 <= i < j < 12 ==> #[trigger] spec_json_fields(a)[i].0 != #[trigger] spec_json_fields(
                a,
            )[j].0,
        field_value(spec_json_fields(a), "input"@) == Some(JsonValueView::Text(a.input)),
        field_value(spec_json_fields(a), "valid"@) == Some(JsonValueView::Bool(a.is_valid)),
        field_value(spec_json_fields(a), "error"@) == Some(text_or_null(a.error)),
        field_value(spec_json_fields(a), "address_type"@) == Some(
            match a.address_type {
                Some(t) => JsonValueView::Text(spec_address_type_label(t)),
                None => JsonValueView::Null,
            },
        ),
        field_value(spec_json_fields(a), "networks"@) == Some(
            JsonValueView::TextList(a.networks.map_values(|n| network_label(n))),
        ),
        field_value(spec_json_fields(a), "checksum"@) == Some(
            match a.checksum {
                Some(c) => JsonValueView::Text(c.spec_label()),
                None => JsonValueView::Null,
            },
        ),
        field_value(spec_json_fields(a), "script_pubkey_hex"@) == Some(
            text_or_null(a.script_pubkey_hex),
        ),
        field_value(spec_json_fields(a), "script_asm"@) == Some(text_or_null(a.script_asm)),
        field_value(spec_json_fields(a), "script_template"@) == Some(
            text_or_null(spec_script_template(a.address_type, a.witness_version)),
        ),
        field_value(spec_json_fields(a), "witness_version"@) == Some(
            match a.witness_version {
                Some(v) => JsonValueView::Number(v as u64),
                None => JsonValueView::Null,
            },
        ),
        field_value(spec_json_fields(a), "witness_program_hex"@) == Some(
            text_or_null(a.witness_program_hex),
        ),
        field_value(spec_json_fields(a), "payload_explanation"@) == Some(
            text_or_null(a.payload_explanation),
        ),
{
    reveal_strlit("input");
    reveal_strlit("valid");
    reveal_strlit("error");
    reveal_strlit("address_type");
    reveal_strlit("networks");
    reveal_strlit("checksum");
    reveal_strlit("script_pubkey_hex");
    reveal_strlit("script_asm");
    reveal_strlit("script_template");
    reveal_strlit("witness_version");
    reveal_strlit("witness_program_hex");
    reveal_strlit("payload_explanation");
    let f = spec_json_fields(a);
    assert forall|i: int, j: int| 0 <= i < j < 12 implies #[trigger] f[i].0 != #[trigger] f[j].0 by {
        let x = f[i].0;
        let y = f[j].0;
        if x.len() == y.len() {
            assert(x[0] != y[0] || x[1] != y[1]);
        }
    }
    reveal_with_fuel(field_value, 13);
}

} // verus!
