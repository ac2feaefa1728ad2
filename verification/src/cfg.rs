//! Configuration validation: from a generic document tree to a typed,
//! integrity-checked `Config`.
//!
//! Validation is deterministic and stops at the first violation. Every
//! integrity error names the dotted path of the entry at fault and, for a
//! type mismatch, both the kind that was expected and the kind that was
//! found.

use vstd::prelude::*;
use vstd::string::StringExecFns;

use crate::doc::ConfigDoc;
use crate::doc::DocV;
use crate::doc::entries_view;
use crate::doc::kind_name;
use crate::doc::lookup;
use crate::doc::table_get;
use crate::parse::parse_document;
use crate::parse::toml_parse;

verus! {

/// Model of an integrity violation: which entry, and why.
pub struct IntegrityErrorV {
    pub entry: Seq<char>,
    pub explanation: Seq<char>,
    pub cause: Option<Seq<char>>,
}

/// A named entry of the document violates the required shape. `entry` is the
/// dotted path of the entry at fault, `explanation` says what was wrong with
/// it, and `cause` optionally carries an underlying error's text.
#[derive(Debug, Clone, PartialEq)]
pub struct IntegrityError {
    pub entry: String,
    pub explanation: String,
    pub cause: Option<String>,
}

impl View for IntegrityError {
    type V = IntegrityErrorV;

    open spec fn view(&self) -> IntegrityErrorV {
        IntegrityErrorV {
            entry: self.entry@,
            explanation: self.explanation@,
            cause: match self.cause {
                Some(c) => Some(c@),
                None => None,
            },
        }
    }
}

/// The explanation a missing required entry is reported with.
pub open spec fn required_explanation() -> Seq<char> {
    "this entry is required"@
}

/// The explanation a wrongly typed entry is reported with: it names the
/// expected kind and the kind that was found.
pub open spec fn mismatch_explanation(expected: Seq<char>, found: Seq<char>) -> Seq<char> {
    "this entry has to be a(n) "@ + expected + ", found "@ + found
}

/// The operator-facing message of an integrity violation.
pub open spec fn integrity_message(e: IntegrityErrorV) -> Seq<char> {
    "For entry "@ + e.entry + ", "@ + e.explanation + "."@
}

impl IntegrityError {
    /// An integrity violation of `entry`, explained by `explanation`.
    pub fn new(entry: &str, explanation: &str) -> (r: Self)
        ensures
            r@ == (IntegrityErrorV { entry: entry@, explanation: explanation@, cause: None }),
    {
        Self { entry: entry.to_owned(), explanation: explanation.to_owned(), cause: None }
    }

    /// An integrity violation that carries the text of an underlying error.
    pub fn new_with_cause(entry: &str, explanation: &str, cause: String) -> (r: Self)
        ensures
            r@ == (IntegrityErrorV {
                entry: entry@,
                explanation: explanation@,
                cause: Some(cause@),
            }),
    {
        Self { entry: entry.to_owned(), explanation: explanation.to_owned(), cause: Some(cause) }
    }

    /// The violation reported when a required entry is absent.
    pub fn entry_required(entry: &str) -> (r: Self)
        ensures
            r@ == (IntegrityErrorV {
                entry: entry@,
                explanation: required_explanation(),
                cause: None,
            }),
    {
        Self {
            entry: entry.to_owned(),
            explanation: "this entry is required".to_owned(),
            cause: None,
        }
    }

    /// The violation reported when an entry has the wrong kind: it names the
    /// expected kind and the kind `val` actually is.
    pub fn type_mismatch(entry: &str, type_expected: &str, val: &ConfigDoc) -> (r: Self)
        ensures
            r@ == (IntegrityErrorV {
                entry: entry@,
                explanation: mismatch_explanation(type_expected@, kind_name(val@)),
                cause: None,
            }),
    {
        let mut explanation = "this entry has to be a(n) ".to_owned();
        explanation.append(type_expected);
        explanation.append(", found ");
        explanation.append(val.type_str());
        Self { entry: entry.to_owned(), explanation, cause: None }
    }

    /// The message shown to the operator: it names the entry and repeats the
    /// explanation.
    pub fn message(&self) -> (r: String)
        ensures
            r@ == integrity_message(self@),
    {
        let mut m = "For entry ".to_owned();
        m.append(self.entry.as_str());
        m.append(", ");
        m.append(self.explanation.as_str());
        m.append(".");
        m
    }
}

/// Model of a validation error.
pub enum ErrorV {
    Parse(Seq<char>),
    Io(Seq<char>),
    Integrity(IntegrityErrorV),
}

/// Why a configuration could not be produced: the document's syntax was
/// malformed, the resource could not be read, or a named entry violated the
/// required shape. The first error found is returned; nothing is
/// accumulated.
#[derive(Debug, Clone, PartialEq)]
pub enum Error {
    Parse(String),
    Io(String),
    Integrity(IntegrityError),
}

impl View for Error {
    type V = ErrorV;

    open spec fn view(&self) -> ErrorV {
        match self {
            Error::Parse(m) => ErrorV::Parse(m@),
            Error::Io(m) => ErrorV::Io(m@),
            Error::Integrity(e) => ErrorV::Integrity(e@),
        }
    }
}

/// The error model of a missing required entry.
pub open spec fn required_error(entry: Seq<char>) -> ErrorV {
    ErrorV::Integrity(
        IntegrityErrorV { entry, explanation: required_explanation(), cause: None },
    )
}

/// The error model of a wrongly typed entry.
pub open spec fn mismatch_error(entry: Seq<char>, expected: Seq<char>, found: Seq<char>) -> ErrorV {
    ErrorV::Integrity(
        IntegrityErrorV { entry, explanation: mismatch_explanation(expected, found), cause: None },
    )
}

/// The operator-facing message of a validation error.
pub open spec fn error_message(e: ErrorV) -> Seq<char> {
    match e {
        ErrorV::Parse(m) => m,
        ErrorV::Io(m) => m,
        ErrorV::Integrity(ie) => integrity_message(ie),
    }
}

impl Error {
    /// The error reported when a required entry is absent.
    pub fn entry_required(entry: &str) -> (r: Self)
        ensures
            r@ == required_error(entry@),
    {
        Error::Integrity(IntegrityError::entry_required(entry))
    }

    /// The error reported when an entry has the wrong kind.
    pub fn type_mismatch(entry: &str, type_expected: &str, val: &ConfigDoc) -> (r: Self)
        ensures
            r@ == mismatch_error(entry@, type_expected@, kind_name(val@)),
    {
        Error::Integrity(IntegrityError::type_mismatch(entry, type_expected, val))
    }

    /// The message shown to the operator before the process exits.
    pub fn message(&self) -> (r: String)
        ensures
            r@ == error_message(self@),
    {
        match self {
            Error::Parse(m) => m.clone(),
            Error::Io(m) => m.clone(),
            Error::Integrity(e) => e.message(),
        }
    }
}

/// Model of a validated configuration.
pub struct ConfigV {
    pub listen_addr: Seq<char>,
    pub raw_map: Seq<(Seq<char>, DocV)>,
}

/// A validated configuration. A value of this type exists only as the result
/// of successful validation: `listen_addr` is the string found at
/// `general.listen_addr`, and `raw_map` retains every entry of the original
/// root table, so that entries the validator does not yet interpret are not
/// lost.
#[derive(Debug, PartialEq)]
pub struct Config {
    pub listen_addr: String,
    pub raw_map: Vec<(String, ConfigDoc)>,
}

impl View for Config {
    type V = ConfigV;

    open spec fn view(&self) -> ConfigV {
        ConfigV { listen_addr: self.listen_addr@, raw_map: entries_view(self.raw_map@) }
    }
}

/// What validating a document yields: deterministic, first failure wins.
///
/// The root must be a table; it must hold a table `general`; that table must
/// hold a string `listen_addr`. On success the configuration keeps the whole
/// root table.
pub open spec fn spec_validate(d: DocV) -> Result<ConfigV, ErrorV> {
    if !(d is Table) {
        Err(mismatch_error("(root)"@, "table"@, kind_name(d)))
    } else {
        let es = d->Table_0;
        match lookup(es, "general"@) {
            None => Err(required_error("general"@)),
            Some(general) => if !(general is Table) {
                Err(mismatch_error("general"@, "table"@, kind_name(general)))
            } else {
                match lookup(general->Table_0, "listen_addr"@) {
                    None => Err(required_error("general.listen_addr"@)),
                    Some(la) => if !(la is Str) {
                        Err(mismatch_error("general.listen_addr"@, "string"@, kind_name(la)))
                    } else {
                        Ok(ConfigV { listen_addr: la->Str_0, raw_map: es })
                    },
                }
            },
        }
    }
}

/// The model of a validation result, error and success alike.
pub open spec fn result_view(r: Result<Config, Error>) -> Result<ConfigV, ErrorV> {
    match r {
        Ok(c) => Ok(c@),
        Err(e) => Err(e@),
    }
}

impl Config {
    /// Validates a parsed document. The result is exactly what
    /// `spec_validate` says of the document's model: the typed configuration
    /// on success, and the first integrity violation otherwise.
    pub fn try_from_toml_value(doc: ConfigDoc) -> (r: Result<Config, Error>)
        ensures
            result_view(r) == spec_validate(doc@),
    {
        let root = match doc {
            ConfigDoc::Table(es) => es,
            other => {
                return Err(Error::type_mismatch("(root)", "table", &other));
            },
        };
        let listen_addr: String;
        {
            let general_val = match table_get(&root, &"general".to_owned()) {
                Some(v) => v,
                None => {
                    return Err(Error::entry_required("general"));
                },
            };
            let general_es = match general_val {
                ConfigDoc::Table(ges) => ges,
                _ => {
                    return Err(Error::type_mismatch("general", "table", general_val));
                },
            };
            let listen_val = match table_get(general_es, &"listen_addr".to_owned()) {
                Some(v) => v,
                None => {
                    return Err(Error::entry_required("general.listen_addr"));
                },
            };
            listen_addr = match listen_val {
                ConfigDoc::Str(s) => s.clone(),
                _ => {
                    return Err(Error::type_mismatch("general.listen_addr", "string", listen_val));
                },
            };
        }
        Ok(Config { listen_addr, raw_map: root })
    }

    /// Parses `s` and validates the document it holds. A malformed text is
    /// rejected as `Parse` with the parser's diagnostic; a well-formed one
    /// is handed to validation unchanged.
    pub fn try_from_str(s: &str) -> (r: Result<Config, Error>)
        ensures
            match toml_parse(s@) {
                Ok(d) => result_view(r) == spec_validate(d),
                Err(m) => r matches Err(e) && e@ == ErrorV::Parse(m),
            },
    {
        match parse_document(s) {
            Ok(doc) => Self::try_from_toml_value(doc),
            Err(m) => Err(Error::Parse(m)),
        }
    }

    /// Turns the outcome of reading a configuration resource into a
    /// configuration: a failed read becomes `Io` with the reader's
    /// diagnostic, and the text of a successful one is parsed and
    /// validated.
    pub fn try_from_read(contents: Result<String, String>) -> (r: Result<Config, Error>)
        ensures
            match contents {
                Err(m) => r matches Err(e) && e@ == ErrorV::Io(m@),
                Ok(text) => match toml_parse(text@) {
                    Ok(d) => result_view(r) == spec_validate(d),
                    Err(m) => r matches Err(e) && e@ == ErrorV::Parse(m),
                },
            },
    {
        match contents {
            Ok(text) => Self::try_from_str(text.as_str()),
            Err(m) => Err(Error::Io(m)),
        }
    }
}

/// Law: a document whose root table holds no `general` entry is rejected as
/// a missing required entry named `general`.
pub proof fn lemma_general_required(d: DocV)
    requires
        d is Table,
        lookup(d->Table_0, "general"@) is None,
    ensures
        spec_validate(d) == Err::<ConfigV, ErrorV>(required_error("general"@)),
{
}

/// Law: a document whose `general` entry is present but is not a table is
/// rejected with a type mismatch that names `general`, the expected kind
/// `table`, and the kind found.
pub proof fn lemma_general_must_be_table(d: DocV, general: DocV)
    requires
        d is Table,
        lookup(d->Table_0, "general"@) == Some(general),
        !(general is Table),
    ensures
        spec_validate(d) == Err::<ConfigV, ErrorV>(
            mismatch_error("general"@, "table"@, kind_name(general)),
        ),
{
}

/// Law: a document whose `general` table holds no `listen_addr` entry is
/// rejected as a missing required entry named `general.listen_addr`.
pub proof fn lemma_listen_addr_required(d: DocV, general: DocV)
    requires
        d is Table,
        lookup(d->Table_0, "general"@) == Some(general),
        general is Table,
        lookup(general->Table_0, "listen_addr"@) is None,
    ensures
        spec_validate(d) == Err::<ConfigV, ErrorV>(required_error("general.listen_addr"@)),
{
}

/// Law: a document whose `general.listen_addr` entry is present but is not a
/// string is rejected with a type mismatch that names
/// `general.listen_addr`, the expected kind `string`, and the kind found.
pub proof fn lemma_listen_addr_must_be_string(d: DocV, general: DocV, la: DocV)
    requires
        d is Table,
        lookup(d->Table_0, "general"@) == Some(general),
        general is Table,
        lookup(general->Table_0, "listen_addr"@) == Some(la),
        !(la is Str),
    ensures
        spec_validate(d) == Err::<ConfigV, ErrorV>(
            mismatch_error("general.listen_addr"@, "string"@, kind_name(la)),
        ),
{
}

/// Law: validation loses nothing. A configuration that validation produced
/// retains the original root table whole: any key looked up in its
/// `raw_map` gives exactly what the document's root table gave.
pub proof fn lemma_no_information_loss(d: DocV, c: ConfigV)
    requires
        spec_validate(d) == Ok::<ConfigV, ErrorV>(c),
    ensures
        c.raw_map == d->Table_0,
        forall|key: Seq<char>| #[trigger] lookup(c.raw_map, key) == lookup(d->Table_0, key),
{
}

/// Law: validation is deterministic. Validating the same document twice
/// yields configurations with the same listen address (and the same
/// retained table).
pub proof fn lemma_validate_idempotent(d: DocV, c1: ConfigV, c2: ConfigV)
    requires
        spec_validate(d) == Ok::<ConfigV, ErrorV>(c1),
        spec_validate(d) == Ok::<ConfigV, ErrorV>(c2),
    ensures
        c1.listen_addr == c2.listen_addr,
        c1.raw_map == c2.raw_map,
{
}

} // verus!

