use messycanvas::cfg::{Config, Error, IntegrityError};
use messycanvas::doc::{table_get, ConfigDoc};

fn table(entries: Vec<(&str, ConfigDoc)>) -> ConfigDoc {
    ConfigDoc::Table(entries.into_iter().map(|(k, v)| (k.to_string(), v)).collect())
}

fn integrity(e: &Error) -> &IntegrityError {
    match e {
        Error::Integrity(i) => i,
        other => panic!("expected an integrity error, got {:?}", other),
    }
}

#[test]
fn well_formed_document_validates() {
    let config = Config::try_from_str("[general]\nlisten_addr = \"127.0.0.1:8080\"\n").unwrap();
    assert_eq!(config.listen_addr, "127.0.0.1:8080");
}

#[test]
fn empty_document_needs_general() {
    let err = Config::try_from_str("").unwrap_err();
    let ie = integrity(&err);
    assert_eq!(ie.entry, "general");
    assert_eq!(ie.explanation, "this entry is required");
    assert_eq!(ie.cause, None);
}

#[test]
fn general_as_string_is_a_type_mismatch() {
    let err = Config::try_from_str("general = \"oops\"\n").unwrap_err();
    let ie = integrity(&err);
    assert_eq!(ie.entry, "general");
    assert_eq!(ie.explanation, "this entry has to be a(n) table, found string");
}

#[test]
fn missing_general_among_other_keys() {
    let doc = table(vec![("other", ConfigDoc::Int(1)), ("more", ConfigDoc::Bool(true))]);
    let err = Config::try_from_toml_value(doc).unwrap_err();
    let ie = integrity(&err);
    assert_eq!(ie.entry, "general");
    assert_eq!(ie.explanation, "this entry is required");
}

#[test]
fn general_as_integer_is_a_type_mismatch() {
    let doc = table(vec![("general", ConfigDoc::Int(80))]);
    let err = Config::try_from_toml_value(doc).unwrap_err();
    let ie = integrity(&err);
    assert_eq!(ie.entry, "general");
    assert_eq!(ie.explanation, "this entry has to be a(n) table, found integer");
}

#[test]
fn listen_addr_is_required() {
    let doc = table(vec![("general", table(vec![("port", ConfigDoc::Int(8080))]))]);
    let err = Config::try_from_toml_value(doc).unwrap_err();
    let ie = integrity(&err);
    assert_eq!(ie.entry, "general.listen_addr");
    assert_eq!(ie.explanation, "this entry is required");
}

#[test]
fn listen_addr_as_integer_is_a_type_mismatch() {
    let err = Config::try_from_str("[general]\nlisten_addr = 80\n").unwrap_err();
    let ie = integrity(&err);
    assert_eq!(ie.entry, "general.listen_addr");
    assert_eq!(ie.explanation, "this entry has to be a(n) string, found integer");
}

#[test]
fn root_must_be_a_table() {
    let err = Config::try_from_toml_value(ConfigDoc::Str("oops".to_string())).unwrap_err();
    let ie = integrity(&err);
    assert_eq!(ie.entry, "(root)");
    assert_eq!(ie.explanation, "this entry has to be a(n) table, found string");
}

#[test]
fn raw_map_retains_every_root_key() {
    let text = "extra = 7\n[general]\nlisten_addr = \"a\"\n[other]\nk = true\n";
    let config = Config::try_from_str(text).unwrap();
    assert!(table_get(&config.raw_map, &"extra".to_string()).is_some());
    assert!(table_get(&config.raw_map, &"general".to_string()).is_some());
    assert!(table_get(&config.raw_map, &"other".to_string()).is_some());
    assert_eq!(config.raw_map.len(), 3);
    assert_eq!(
        table_get(&config.raw_map, &"extra".to_string()),
        Some(&ConfigDoc::Int(7))
    );
}

#[test]
fn validation_is_idempotent() {
    let text = "[general]\nlisten_addr = \"10.0.0.1:1234\"\n";
    let first = Config::try_from_str(text).unwrap();
    let second = Config::try_from_str(text).unwrap();
    assert_eq!(first.listen_addr, second.listen_addr);
    assert_eq!(first.raw_map, second.raw_map);
}

#[test]
fn malformed_syntax_is_a_parse_error() {
    let err = Config::try_from_str("this is = = not a document").unwrap_err();
    match err {
        Error::Parse(m) => assert!(!m.is_empty()),
        other => panic!("expected a parse error, got {:?}", other),
    }
}

#[test]
fn failed_read_is_an_io_error() {
    let err = Config::try_from_read(Err("no such file or directory".to_string())).unwrap_err();
    assert_eq!(err, Error::Io("no such file or directory".to_string()));
}

#[test]
fn successful_read_is_validated() {
    let contents = Ok("[general]\nlisten_addr = \"[::1]:80\"\n".to_string());
    let config = Config::try_from_read(contents).unwrap();
    assert_eq!(config.listen_addr, "[::1]:80");
}

#[test]
fn every_value_kind_is_carried_over() {
    let text = "int = 3\nfloat = 3.5\nflag = false\nitems = [1, 2]\nwhen = 1979-05-27T07:32:00Z\n[general]\nlisten_addr = \"x\"\n";
    let config = Config::try_from_str(text).unwrap();
    assert_eq!(
        table_get(&config.raw_map, &"int".to_string()),
        Some(&ConfigDoc::Int(3))
    );
    assert_eq!(
        table_get(&config.raw_map, &"float".to_string()),
        Some(&ConfigDoc::Float(3.5f64.to_bits()))
    );
    assert_eq!(
        table_get(&config.raw_map, &"flag".to_string()),
        Some(&ConfigDoc::Bool(false))
    );
    assert_eq!(
        table_get(&config.raw_map, &"items".to_string()),
        Some(&ConfigDoc::Array(vec![ConfigDoc::Int(1), ConfigDoc::Int(2)]))
    );
    assert_eq!(
        table_get(&config.raw_map, &"when".to_string()),
        Some(&ConfigDoc::Datetime("1979-05-27T07:32:00Z".to_string()))
    );
}

#[test]
fn table_get_finds_the_first_match() {
    let entries = vec![
        ("k".to_string(), ConfigDoc::Int(1)),
        ("k".to_string(), ConfigDoc::Int(2)),
    ];
    assert_eq!(table_get(&entries, &"k".to_string()), Some(&ConfigDoc::Int(1)));
    assert_eq!(table_get(&entries, &"missing".to_string()), None);
    assert_eq!(table_get(&Vec::new(), &"k".to_string()), None);
}

#[test]
fn kind_names_match_the_error_messages() {
    assert_eq!(ConfigDoc::Table(Vec::new()).type_str(), "table");
    assert_eq!(ConfigDoc::Str(String::new()).type_str(), "string");
    assert_eq!(ConfigDoc::Int(0).type_str(), "integer");
    assert_eq!(ConfigDoc::Float(0).type_str(), "float");
    assert_eq!(ConfigDoc::Bool(true).type_str(), "boolean");
    assert_eq!(ConfigDoc::Array(Vec::new()).type_str(), "array");
    assert_eq!(ConfigDoc::Datetime(String::new()).type_str(), "datetime");
}

#[test]
fn integrity_error_constructors_fill_the_fields() {
    let plain = IntegrityError::new("general", "looks odd");
    assert_eq!(plain.entry, "general");
    assert_eq!(plain.explanation, "looks odd");
    assert_eq!(plain.cause, None);

    let with_cause = IntegrityError::new_with_cause("general", "looks odd", "deeper".to_string());
    assert_eq!(with_cause.cause, Some("deeper".to_string()));

    let required = IntegrityError::entry_required("general.listen_addr");
    assert_eq!(required.entry, "general.listen_addr");
    assert_eq!(required.explanation, "this entry is required");
}

#[test]
fn messages_name_the_entry_and_the_explanation() {
    let err = Config::try_from_str("").unwrap_err();
    assert_eq!(err.message(), "For entry general, this entry is required.");

    let err = Config::try_from_str("general = \"oops\"\n").unwrap_err();
    assert_eq!(
        err.message(),
        "For entry general, this entry has to be a(n) table, found string."
    );

    assert_eq!(Error::Io("gone".to_string()).message(), "gone");
    assert_eq!(Error::Parse("bad".to_string()).message(), "bad");
}
