//! Reading TOML text into a [`Table`], by way of the `config` crate.

use crate::value::{Table, ValueView};
use config::ValueKind;
use vstd::prelude::*;

verus! {

/// `config::ValueKind`, the kinds of value of the `config` crate; nothing is
/// said of what a value of it holds.
#[verifier::external_type_specification]
#[verifier::external_body]
pub struct ExValueKind(ValueKind);

/// `config::ConfigError`, the error of the `config` crate; nothing is said
/// of what a value of it holds.
#[verifier::external_type_specification]
#[verifier::external_body]
pub struct ExConfigError(config::ConfigError);

/// The table that the `config` crate's TOML reader finds in a text, or
/// `None` where it rejects the text.
///
/// A text whose root is not a table reads as the empty table.
pub uninterp spec fn toml_document(text: Seq<char>) -> Option<Map<Seq<char>, ValueView>>;

/// A text that could not be read as TOML.
#[derive(Clone, Debug)]
pub struct ParseError {
    /// What the reader said of the text.
    pub message: String,
}

/// Reads `text` as a TOML document.
///
/// Succeeds exactly on the texts that the reader accepts, and then returns
/// the table it found.
pub fn load_config(text: &str) -> (r: Result<Table, ParseError>)
    ensures
        match r {
            Ok(table) => toml_document(text@) == Some(table@),
            Err(_) => toml_document(text@) is None,
        },
{
    match collect_toml(text) {
        Ok(table) => Ok(table),
        Err(error) => Err(ParseError { message: describe(&error) }),
    }
}

/// `Source::collect` on `File::from_str(text, FileFormat::Toml)`: the source
/// hands the text to the TOML reader and returns the root table, or the
/// reader's error. The table is rebuilt entry by entry as a [`Table`]; the
/// contract gives the outcome its name, [`toml_document`].
#[verifier::external_body]
fn collect_toml(text: &str) -> (r: Result<Table, config::ConfigError>)
    ensures
        match r {
            Ok(table) => toml_document(text@) == Some(table@),
            Err(_) => toml_document(text@) is None,
        },
{
    let file = config::File::from_str(text, config::FileFormat::Toml);
    let map = config::Source::collect(&file)?;
    Ok(Table::from_entries(map.into_iter().map(|(k, v)| (k, value_of(v.kind))).collect()))
}

/// Rebuilds what a value of the `config` crate holds as a value of this
/// library: an array item by item, a table entry by entry.
#[verifier::external_body]
fn value_of(kind: ValueKind) -> crate::value::Value {
    match kind {
        ValueKind::Table(map) => crate::value::Value::Table(
            Table::from_entries(map.into_iter().map(|(k, v)| (k, value_of(v.kind))).collect()),
        ),
        ValueKind::Array(items) => crate::value::Value::Array(
            items.into_iter().map(|v| value_of(v.kind)).collect(),
        ),
        scalar => scalar_of(scalar),
    }
}

/// Rebuilds a value of the `config` crate that is neither array nor table,
/// kind by kind; a number keeps its value, a float its bits.
#[verifier::external_body]
fn scalar_of(kind: ValueKind) -> crate::value::Value {
    match kind {
        ValueKind::Boolean(b) => crate::value::Value::Boolean(b),
        ValueKind::I64(i) => crate::value::Value::Integer(i.into()),
        ValueKind::I128(i) => crate::value::Value::Integer(i),
        ValueKind::U64(u) => crate::value::Value::Unsigned(u.into()),
        ValueKind::U128(u) => crate::value::Value::Unsigned(u),
        ValueKind::Float(x) => crate::value::Value::Float(x.to_bits()),
        ValueKind::String(s) => crate::value::Value::String(s),
        ValueKind::Nil | ValueKind::Table(_) | ValueKind::Array(_) => crate::value::Value::Nil,
    }
}

/// `ToString::to_string` on a `ConfigError`: the error's message.
#[verifier::external_body]
fn describe(error: &config::ConfigError) -> String {
    error.to_string()
}

} // verus!
