//! The generic configuration document tree.
//!
//! A configuration resource is parsed into this tree before any domain rule
//! looks at it: tables keep every key they were given, and scalars stay
//! untyped until the validator asks for a particular kind.

use vstd::prelude::*;

verus! {

broadcast use vstd::std_specs::vec::group_vec_axioms, vstd::seq::axiom_seq_index_decreases;

/// Mathematical model of a document tree: tables are sequences of
/// key/subtree pairs, strings are character sequences, floats are carried
/// as their raw bit pattern.
pub enum DocV {
    Table(Seq<(Seq<char>, DocV)>),
    Str(Seq<char>),
    Int(i64),
    Float(u64),
    Bool(bool),
    Array(Seq<DocV>),
    Datetime(Seq<char>),
}

/// A generic configuration document: one of the value kinds a table-based
/// configuration format can hold. Tables keep their entries as ordered
/// key/value pairs; floats are carried opaquely as their bit pattern and
/// datetimes as their text, so that no entry of the original document is
/// lost.
#[derive(Debug, PartialEq)]
pub enum ConfigDoc {
    Table(Vec<(String, ConfigDoc)>),
    Str(String),
    Int(i64),
    Float(u64),
    Bool(bool),
    Array(Vec<ConfigDoc>),
    Datetime(String),
}

/// The model of one document value.
pub open spec fn doc_view(d: ConfigDoc) -> DocV
    decreases d,
{
    match d {
        ConfigDoc::Table(es) => DocV::Table(entries_view(es@)),
        ConfigDoc::Str(s) => DocV::Str(s@),
        ConfigDoc::Int(i) => DocV::Int(i),
        ConfigDoc::Float(bits) => DocV::Float(bits),
        ConfigDoc::Bool(b) => DocV::Bool(b),
        ConfigDoc::Array(xs) => DocV::Array(items_view(xs@)),
        ConfigDoc::Datetime(s) => DocV::Datetime(s@),
    }
}

/// The model of a table's entries, key by key.
pub open spec fn entries_view(es: Seq<(String, ConfigDoc)>) -> Seq<(Seq<char>, DocV)>
    decreases es,
{
    if es.len() == 0 {
        Seq::empty()
    } else {
        seq![(es[0].0@, doc_view(es[0].1))] + entries_view(es.subrange(1, es.len() as int))
    }
}

/// The model of an array's items, in order.
pub open spec fn items_view(xs: Seq<ConfigDoc>) -> Seq<DocV>
    decreases xs,
{
    if xs.len() == 0 {
        Seq::empty()
    } else {
        seq![doc_view(xs[0])] + items_view(xs.subrange(1, xs.len() as int))
    }
}

impl View for ConfigDoc {
    type V = DocV;

    open spec fn view(&self) -> DocV {
        doc_view(*self)
    }
}

/// The name of a document value's kind, as an operator sees it in an error
/// message.
pub open spec fn kind_name(d: DocV) -> Seq<char> {
    match d {
        DocV::Table(_) => "table"@,
        DocV::Str(_) => "string"@,
        DocV::Int(_) => "integer"@,
        DocV::Float(_) => "float"@,
        DocV::Bool(_) => "boolean"@,
        DocV::Array(_) => "array"@,
        DocV::Datetime(_) => "datetime"@,
    }
}

/// The value a table maps a key to: the first entry whose key matches, if
/// any.
pub open spec fn lookup(es: Seq<(Seq<char>, DocV)>, key: Seq<char>) -> Option<DocV>
    decreases es.len(),
{
    if es.len() == 0 {
        None
    } else if es[0].0 == key {
        Some(es[0].1)
    } else {
        lookup(es.subrange(1, es.len() as int), key)
    }
}

/// A table's model keeps the length of its entry list and models each entry
/// in place.
pub proof fn lemma_entries_view(es: Seq<(String, ConfigDoc)>)
    ensures
        entries_view(es).len() == es.len(),
        forall|i: int|
            0 <= i < es.len() ==> #[trigger] entries_view(es)[i] == (es[i].0@, doc_view(es[i].1)),
    decreases es.len(),
{
    if es.len() > 0 {
        let tail = es.subrange(1, es.len() as int);
        lemma_entries_view(tail);
        assert forall|i: int|
            0 <= i < es.len() implies #[trigger] entries_view(es)[i] == (
            es[i].0@,
            doc_view(es[i].1),
        ) by {
            if i > 0 {
                assert(tail[i - 1] == es[i]);
                assert(entries_view(es)[i] == entries_view(tail)[i - 1]);
            }
        }
    }
}

impl ConfigDoc {
    /// The kind of this value, by the name an error message uses.
    pub fn type_str(&self) -> (r: &'static str)
        ensures
            r@ == kind_name(self@),
    {
        match self {
            ConfigDoc::Table(_) => "table",
            ConfigDoc::Str(_) => "string",
            ConfigDoc::Int(_) => "integer",
            ConfigDoc::Float(_) => "float",
            ConfigDoc::Bool(_) => "boolean",
            ConfigDoc::Array(_) => "array",
            ConfigDoc::Datetime(_) => "datetime",
        }
    }
}

/// Finds the entry of `es` named `key`, scanning in order.
pub fn table_get<'a>(es: &'a Vec<(String, ConfigDoc)>, key: &String) -> (r: Option<
    &'a ConfigDoc,
>)
    ensures
        match r {
            Some(d) => lookup(entries_view(es@), key@) == Some(d@),
            None => lookup(entries_view(es@), key@) is None,
        },
{
    proof {
        lemma_entries_view(es@);
        assert(entries_view(es@).subrange(0, entries_view(es@).len() as int) =~= entries_view(
            es@,
        ));
    }
    let ghost evs = entries_view(es@);
    let mut i: usize = 0;
    while i < es.len()
        invariant
            i <= es@.len(),
            evs == entries_view(es@),
            evs.len() == es@.len(),
            forall|j: int|
                0 <= j < es@.len() ==> #[trigger] evs[j] == (es@[j].0@, doc_view(es@[j].1)),
            lookup(evs, key@) == lookup(evs.subrange(i as int, evs.len() as int), key@),
        decreases es@.len() - i,
    {
        let ghost rest = evs.subrange(i as int, evs.len() as int);
        if es[i].0 == *key {
            proof {
                assert(rest[0] == evs[i as int]);
            }
            return Some(&es[i].1);
        }
        proof {
            assert(rest[0] == evs[i as int]);
            assert(rest.subrange(1, rest.len() as int) =~= evs.subrange(
                i + 1,
                evs.len() as int,
            ));
        }
        i += 1;
    }
    proof {
        assert(evs.subrange(evs.len() as int, evs.len() as int) =~= Seq::<(
            Seq<char>,
            DocV,
        )>::empty());
    }
    None
}

} // verus!
