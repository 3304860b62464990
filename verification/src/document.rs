//! Document model.
//!
//! The manifest is written in TOML. The syntax of that format belongs to
//! the `toml` crate; this module parses a document through it and mirrors
//! the result as a tree of plain values, the [`Node`] enum, on which the
//! typed manifest decoder works. A table is kept as a sequence of
//! key/value pairs; looking a key up returns the first match.

use vstd::prelude::*;

verus! {

/// A decoded document node: the plain-value mirror of a parsed TOML value.
///
/// Values the manifest never reads (floats, datetimes) are kept as
/// [`Node::Other`]; they still make a typed field fail to decode, exactly
/// as a wrong scalar type does.
pub enum Node {
    Integer(i64),
    Text(String),
    Boolean(bool),
    Array(Vec<Node>),
    Table(Vec<(String, Node)>),
    Other,
}

#[verifier::external_type_specification]
#[verifier::external_body]
#[verifier::reject_recursive_types(K)]
#[verifier::reject_recursive_types(V)]
pub struct ExTomlMap<K, V>(toml::map::Map<K, V>);

#[verifier::external_type_specification]
#[verifier::external_body]
pub struct ExTomlValue(toml::Value);

/// The document tree that a given text parses to, or `None` on a syntax
/// error. TOML parsing is involved enough that the result is not written
/// out here; it is named, and tied to the `toml` crate by [`parse_toml`].
pub uninterp spec fn toml_of(s: Seq<char>) -> Option<Node>;

/// Relies on `toml::Table`'s `FromStr` impl: parses TOML text into a
/// table; the result is a function of the input text alone, and a
/// successful parse always yields a table.
#[verifier::external_body]
pub(crate) fn parse_toml(s: &str) -> (r: Option<Node>)
    ensures
        r == toml_of(s@),
        r matches Some(v) ==> v is Table,
{
    match s.parse::<toml::Table>() {
        Ok(t) => Some(convert_table(&t)),
        Err(_) => None,
    }
}

/// Conversion layer for [`parse_toml`]: mirrors a `toml::Table` entry by
/// entry.
#[verifier::external_body]
fn convert_table(t: &toml::Table) -> Node {
    Node::Table(t.iter().map(|(k, v)| (k.clone(), convert_value(v))).collect())
}

/// Conversion layer for [`parse_toml`]: mirrors each `toml::Value`
/// variant, moving fields only.
#[verifier::external_body]
fn convert_value(v: &toml::Value) -> Node {
    match v {
        toml::Value::String(s) => Node::Text(s.clone()),
        toml::Value::Integer(i) => Node::Integer(*i),
        toml::Value::Boolean(b) => Node::Boolean(*b),
        toml::Value::Array(a) => Node::Array(a.iter().map(convert_value).collect()),
        toml::Value::Table(t) => convert_table(t),
        toml::Value::Float(_) => Node::Other,
        toml::Value::Datetime(_) => Node::Other,
    }
}

/// The value under `key`, at the first pair whose key matches.
pub open spec fn table_get_spec(entries: Seq<(String, Node)>, key: Seq<char>) -> Option<Node>
    decreases entries.len(),
{
    if entries.len() == 0 {
        None
    } else if entries[0].0@ == key {
        Some(entries[0].1)
    } else {
        table_get_spec(entries.drop_first(), key)
    }
}

/// Look `key` up in a table, returning the first match.
pub fn table_get<'a>(entries: &'a Vec<(String, Node)>, key: &str) -> (r: Option<&'a Node>)
    ensures
        (match r {
            Some(v) => table_get_spec(entries@, key@) == Some(*v),
            None => table_get_spec(entries@, key@) is None,
        }),
{
    let n = entries.len();
    proof {
        assert(entries@.skip(0) =~= entries@);
    }
    let mut i: usize = 0;
    while i < n
        invariant
            i <= n,
            n == entries@.len(),
            table_get_spec(entries@, key@) == table_get_spec(entries@.skip(i as int), key@),
        decreases n - i,
    {
        proof {
            assert(entries@.skip(i as int)[0] == entries@[i as int]);
            assert(entries@.skip(i as int).drop_first() =~= entries@.skip(i as int + 1));
        }
        if crate::util::str_eq(entries[i].0.as_str(), key) {
            return Some(&entries[i].1);
        }
        i = i + 1;
    }
    proof {
        assert(entries@.skip(n as int) =~= Seq::<(String, Node)>::empty());
    }
    None
}

} // verus!
