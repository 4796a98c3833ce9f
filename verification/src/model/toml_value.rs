//! TOML values as the model logic reads them.

use vstd::prelude::*;

verus! {

/// A TOML value. Floats and datetimes are held as their TOML text.
#[derive(Debug)]
pub enum TomlValue {
    String(String),
    Integer(i64),
    Float(String),
    Boolean(bool),
    Datetime(String),
    Array(Vec<TomlValue>),
    Table(Vec<(String, TomlValue)>),
}

#[verifier::external_type_specification]
#[verifier::external_body]
pub struct ExTomlValue(toml::Value);

/// Text of a value as the `toml` crate displays it.
pub uninterp spec fn toml_text(v: TomlValue) -> Seq<char>;

/// The `toml::Value` that a value stands for.
///
/// Builds the value one variant for one; float and datetime leaves are read
/// back from their text with `toml::Value::from_str`, and kept as a string
/// when that fails. No property of the result is claimed.
#[verifier::external_body]
fn to_toml(v: &TomlValue) -> toml::Value {
    match v {
        TomlValue::String(s) => toml::Value::String(s.clone()),
        TomlValue::Integer(i) => toml::Value::Integer(*i),
        TomlValue::Boolean(b) => toml::Value::Boolean(*b),
        TomlValue::Float(t) | TomlValue::Datetime(t) => match t.parse::<toml::Value>() {
            Ok(parsed) => parsed,
            Err(_) => toml::Value::String(t.clone()),
        },
        TomlValue::Array(a) => toml::Value::Array(a.iter().map(to_toml).collect()),
        TomlValue::Table(t) => toml::Value::Table(t.iter().map(|(k, x)| (k.clone(), to_toml(x))).collect()),
    }
}

/// Displays a value with `toml::Value`'s `Display` implementation, through
/// `ToString::to_string`.
///
/// The text is named by `toml_text`; nothing more is claimed of it.
#[verifier::external_body]
pub(crate) fn toml_to_string(v: &TomlValue) -> (res: String)
    ensures
        res@ == toml_text(*v),
{
    to_toml(v).to_string()
}

/// The string held by a string value.
pub open spec fn str_of(v: TomlValue) -> Seq<char> {
    match v {
        TomlValue::String(s) => s@,
        _ => Seq::empty(),
    }
}

/// Whether every element of an array value is a string.
pub open spec fn all_strings(a: Seq<TomlValue>) -> bool {
    forall|i: int| 0 <= i < a.len() ==> (#[trigger] a[i]) is String
}

/// The strings held by an array of string values.
pub open spec fn strs_of(a: Seq<TomlValue>) -> Seq<Seq<char>> {
    a.map_values(|v: TomlValue| str_of(v))
}

/// Reads the strings of an array of string values.
pub fn strings_of(a: &Vec<TomlValue>) -> (res: Vec<String>)
    requires
        all_strings(a@),
    ensures
        crate::text::views(res@) == strs_of(a@),
{
    let mut out: Vec<String> = Vec::new();
    let mut i: usize = 0;
    while i < a.len()
        invariant
            all_strings(a@),
            i <= a@.len(),
            out@.len() == i,
            forall|k: int| 0 <= k < i ==> #[trigger] out@[k]@ == str_of(a@[k]),
        decreases a@.len() - i,
    {
        match &a[i] {
            TomlValue::String(s) => out.push(s.clone()),
            _ => {
                assert(a@[i as int] is String);
            },
        }
        i = i + 1;
    }
    assert(crate::text::views(out@) =~= strs_of(a@));
    out
}

} // verus!
