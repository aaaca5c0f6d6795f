//! TOML documents, read and written by the `toml` crate.
//!
//! A document is kept as that crate's table type. What a table holds is
//! named by `table_items`. The functions below are the only ones that look
//! into a table or change one; what they state of it is taken from the
//! source of `toml`, not proved.

use vstd::prelude::*;

verus! {

/// `toml::map::Map`, the table type of the `toml` crate. With the crate's
/// default features it keeps its entries in a `BTreeMap`, one value per key.
#[verifier::external_type_specification]
#[verifier::external_body]
#[verifier::reject_recursive_types(K)]
#[verifier::reject_recursive_types(V)]
pub struct ExTomlMap<K, V>(toml::map::Map<K, V>);

/// `toml::Value`, one value of a document.
#[verifier::external_type_specification]
#[verifier::external_body]
pub struct ExTomlValue(toml::Value);

/// `toml::de::Error`, the reason why a text is no TOML document.
#[verifier::external_type_specification]
#[verifier::external_body]
pub struct ExTomlDeError(toml::de::Error);

/// `toml::ser::Error`, the reason why a table was not written out.
#[verifier::external_type_specification]
#[verifier::external_body]
pub struct ExTomlSerError(toml::ser::Error);

/// One value of a document, as a mathematical value. The variants are those
/// of `toml::Value`; a float stands here by its bits and a date by its text.
pub enum Item {
    Text(Seq<char>),
    Integer(i64),
    Float(u64),
    Boolean(bool),
    Datetime(Seq<char>),
    Array(Seq<Item>),
    Table(Map<Seq<char>, Item>),
}

/// The entries of a table: for each key the value that the table holds for
/// it.
pub uninterp spec fn table_items(table: toml::map::Map<String, toml::Value>) -> Map<
    Seq<char>,
    Item,
>;

/// The entries of a table that holds nothing.
pub open spec fn no_items() -> Map<Seq<char>, Item> {
    Map::empty()
}

/// The entries of the document that `text` is, or `None` where `text` is no
/// TOML document: what `toml::from_str` makes of it.
pub uninterp spec fn parsed_items(text: Seq<char>) -> Option<Map<Seq<char>, Item>>;

/// The text that `toml::to_string_pretty` writes for a table with these
/// entries, or `None` where it refuses them.
pub uninterp spec fn pretty_text(items: Map<Seq<char>, Item>) -> Option<Seq<char>>;

/// A value that configuration files use: a text, an integer, a switch or a
/// table.
pub(crate) enum Field {
    Text(String),
    Integer(i64),
    Boolean(bool),
    Table(toml::Table),
}

impl Field {
    /// The item that this field is.
    pub(crate) open spec fn item(self) -> Item {
        match self {
            Field::Text(text) => Item::Text(text@),
            Field::Integer(number) => Item::Integer(number),
            Field::Boolean(flag) => Item::Boolean(flag),
            Field::Table(table) => Item::Table(table_items(table)),
        }
    }
}

/// What a table holds for one key.
pub(crate) enum Lookup {
    /// The table has no such key.
    Absent,
    /// The table holds this field.
    Found(Field),
    /// The table holds a float, a date or an array.
    Unsupported,
}

impl Lookup {
    /// Whether this is what `items` holds for `key`.
    pub(crate) open spec fn tells(self, items: Map<Seq<char>, Item>, key: Seq<char>) -> bool {
        match self {
            Lookup::Absent => !items.contains_key(key),
            Lookup::Found(field) => items.contains_key(key) && items[key] == field.item(),
            Lookup::Unsupported => items.contains_key(key) && (items[key] is Float
                || items[key] is Datetime || items[key] is Array),
        }
    }
}

/// Calls `toml::from_str` to read `text` as a document. The call depends on
/// `text` alone: it gives a table exactly where `parsed_items` names entries,
/// and the table holds those.
#[verifier::external_body]
pub(crate) fn parse_table(text: &str) -> (r: Result<toml::Table, toml::de::Error>)
    ensures
        r is Ok <==> parsed_items(text@) is Some,
        r matches Ok(table) ==> parsed_items(text@) == Some(table_items(table)),
{
    toml::from_str::<toml::Table>(text)
}

/// Calls `toml::de::Error::message` for the reason that the parser gave.
/// Nothing is stated of the text.
#[verifier::external_body]
pub(crate) fn failure_message(error: &toml::de::Error) -> (r: String) {
    error.message().to_string()
}

/// Calls `toml::map::Map::keys` and hands out the keys of `table`: each key
/// once, and no other text.
#[verifier::external_body]
pub(crate) fn table_keys(table: &toml::Table) -> (r: Vec<String>)
    ensures
        r.deep_view().no_duplicates(),
        forall|key: Seq<char>|
            r.deep_view().contains(key) <==> table_items(*table).contains_key(key),
{
    table.keys().cloned().collect()
}

/// Calls `toml::map::Map::get` and tells the variants of the value apart:
/// whether `table` has the key, and what it holds for it.
#[verifier::external_body]
pub(crate) fn lookup(table: &toml::Table, key: &str) -> (r: Lookup)
    ensures
        r.tells(table_items(*table), key@),
{
    match table.get(key) {
        None => Lookup::Absent,
        Some(toml::Value::String(text)) => Lookup::Found(Field::Text(text.clone())),
        Some(toml::Value::Integer(number)) => Lookup::Found(Field::Integer(*number)),
        Some(toml::Value::Boolean(flag)) => Lookup::Found(Field::Boolean(*flag)),
        Some(toml::Value::Table(inner)) => Lookup::Found(Field::Table(inner.clone())),
        Some(toml::Value::Float(_)) => Lookup::Unsupported,
        Some(toml::Value::Datetime(_)) => Lookup::Unsupported,
        Some(toml::Value::Array(_)) => Lookup::Unsupported,
    }
}

/// Calls `toml::map::Map::new`: a table without entries.
#[verifier::external_body]
pub(crate) fn empty_table() -> (r: toml::Table)
    ensures
        table_items(r) == no_items(),
{
    toml::map::Map::new()
}

/// Calls `toml::map::Map::insert`: afterwards `table` holds `field` for
/// `key`, in place of what it held for that key before, and its other
/// entries as they were.
#[verifier::external_body]
pub(crate) fn insert_field(table: &mut toml::Table, key: &str, field: Field)
    ensures
        table_items(*final(table)) == table_items(*old(table)).insert(key@, field.item()),
{
    let value = match field {
        Field::Text(text) => toml::Value::String(text),
        Field::Integer(number) => toml::Value::Integer(number),
        Field::Boolean(flag) => toml::Value::Boolean(flag),
        Field::Table(inner) => toml::Value::Table(inner),
    };
    table.insert(key.to_string(), value);
}

/// Calls `toml::to_string_pretty` to write `table` out. The text depends on
/// the entries alone, which a table keeps ordered by key.
#[verifier::external_body]
pub(crate) fn render_table(table: &toml::Table) -> (r: Result<String, toml::ser::Error>)
    ensures
        r is Ok <==> pretty_text(table_items(*table)) is Some,
        r matches Ok(text) ==> pretty_text(table_items(*table)) == Some(text@),
{
    toml::to_string_pretty(table)
}

} // verus!
