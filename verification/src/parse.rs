//! The document parser: text in, generic tree out.
//!
//! The syntax of the configuration format is the business of the `toml`
//! crate; this module is the trusted boundary around it. What a given text
//! parses to is named by `toml_parse` and nowhere spelled out: everything
//! after parsing is verified against that name.

use vstd::prelude::*;

use crate::doc::ConfigDoc;
use crate::doc::DocV;

verus! {

/// What parsing a text yields: the model of the document tree when the text
/// is well-formed, and the parser's diagnostic message otherwise. Parsing is
/// a function of the text alone.
pub uninterp spec fn toml_parse(s: Seq<char>) -> Result<DocV, Seq<char>>;

#[verifier::external_type_specification]
#[verifier::external_body]
pub struct ExTomlValue(toml::Value);

/// Relies on the shape of `toml::Value`: each variant is carried over into
/// the library's own tree one for one — strings, integers and booleans as
/// they are, floats as their raw bit pattern, datetimes as their text,
/// arrays and tables entry by entry (a table's entries come out in its
/// iteration order, which for `toml::Table` is the lexicographic order of
/// the keys).
#[verifier::external_body]
fn doc_from_toml(v: toml::Value) -> ConfigDoc {
    match v {
        toml::Value::String(s) => ConfigDoc::Str(s),
        toml::Value::Integer(i) => ConfigDoc::Int(i),
        toml::Value::Float(f) => ConfigDoc::Float(f.to_bits()),
        toml::Value::Boolean(b) => ConfigDoc::Bool(b),
        toml::Value::Datetime(d) => ConfigDoc::Datetime(d.to_string()),
        toml::Value::Array(a) => ConfigDoc::Array(a.into_iter().map(doc_from_toml).collect()),
        toml::Value::Table(t) => ConfigDoc::Table(
            t.into_iter().map(|(k, v)| (k, doc_from_toml(v))).collect(),
        ),
    }
}

/// Relies on `str::parse::<toml::Table>` (the toml crate's document parser):
/// it parses a complete document deterministically from the text alone, its
/// result's root is a table, and on malformed syntax it reports a
/// diagnostic. The parsed tree is carried over by `doc_from_toml`.
#[verifier::external_body]
pub(crate) fn parse_document(s: &str) -> (r: Result<ConfigDoc, String>)
    ensures
        match r {
            Ok(d) => toml_parse(s@) == Ok::<DocV, Seq<char>>(d@) && d@ is Table,
            Err(m) => toml_parse(s@) == Err::<DocV, Seq<char>>(m@),
        },
{
    match s.parse::<toml::Table>() {
        Ok(t) => Ok(ConfigDoc::Table(t.into_iter().map(|(k, v)| (k, doc_from_toml(v))).collect())),
        Err(e) => Err(e.to_string()),
    }
}

} // verus!
