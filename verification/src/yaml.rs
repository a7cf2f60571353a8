//! The YAML encoding of values, as `serde_yml` writes it.

use crate::datum::{Datum, DatumView, Number};
use vstd::prelude::*;

verus! {

/// The value type of `serde_yml`, opaque here.
#[verifier::external_type_specification]
#[verifier::external_body]
pub struct ExYamlValue(serde_yml::Value);

/// The error type of `serde_yml`, opaque here.
#[verifier::external_type_specification]
#[verifier::external_body]
pub struct ExYamlError(serde_yml::Error);

/// The YAML document that `serde_yml::to_string` writes for a value, or
/// `None` where it refuses the value.
pub uninterp spec fn yaml_encoding(value: DatumView) -> Option<Seq<char>>;

/// Rebuilds `value` as a `serde_yml::Value`, variant by variant.
///
/// Trusted: it only converts, for [`yaml_text`], and stands apart from it
/// because it calls itself on the parts of a sequence or mapping. A
/// floating-point number is read from its text by std's `str::parse`, which
/// returns an error and never fails otherwise; text that is no number is
/// carried over as a string. Nothing is claimed of the result.
#[verifier::external_body]
fn as_yaml(value: &Datum) -> serde_yml::Value {
    match value {
        Datum::Null => serde_yml::Value::Null,
        Datum::Bool(b) => serde_yml::Value::Bool(*b),
        Datum::Number(Number::Integer(n)) => (*n).into(),
        Datum::Number(Number::Float(t)) => t.parse().map(serde_yml::Number::Float).map_or_else(
            |_| t.as_str().into(),
            serde_yml::Value::Number,
        ),
        Datum::String(s) => s.as_str().into(),
        Datum::Sequence(items) => serde_yml::Value::Sequence(items.iter().map(as_yaml).collect()),
        Datum::Mapping(entries) => serde_yml::Value::Mapping(
            entries.iter().map(|(k, v)| (k.clone(), as_yaml(v))).collect(),
        ),
    }
}

/// Writes `value` as a YAML document.
///
/// Trusted: calls `serde_yml::to_string` on the value rebuilt as a
/// `serde_yml::Value`. The contract only gives the outcome its name: the
/// text returned is `yaml_encoding` of the value's model, and an error is
/// returned exactly where `yaml_encoding` is `None`.
#[verifier::external_body]
pub(crate) fn yaml_text(value: &Datum) -> (r: Result<String, serde_yml::Error>)
    ensures
        match r {
            Ok(text) => yaml_encoding(value@) == Some(text@),
            Err(_) => yaml_encoding(value@) is None,
        },
{
    serde_yml::to_string(&as_yaml(value))
}

} // verus!
