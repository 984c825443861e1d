//! Decoding the TOML wire format into plain values.
//!
//! Parsing itself is the work of the `toml` crate; this module hands the
//! parsed top-level table out as plain key/value pairs and gives the parse
//! result a name, [`toml_string_entries`], that the sample chains' decoders
//! are specified against.  The shape check that a version's decoder performs
//! on those pairs is ordinary verified code.

use vstd::prelude::*;

verus! {

/// What parsing `input` as a TOML document yields: `None` when the document
/// is malformed, otherwise the top-level table's entries in the order the
/// parser hands them out — each key with its value if that value is a string,
/// or with `None` for a value of any other kind.
pub uninterp spec fn toml_string_entries(input: Seq<char>) -> Option<
    Seq<(Seq<char>, Option<Seq<char>>)>,
>;

/// Relies on toml::from_str::<toml::Table>: parses a TOML document into its
/// top-level table, or fails on a malformed document.  The entries are handed
/// out converted to plain pairs; both outcomes are a function of the input
/// text alone, named by [`toml_string_entries`].
#[verifier::external_body]
fn parse_string_table(input: &str) -> (r: Option<Vec<(String, Option<String>)>>)
    ensures
        r.deep_view() == toml_string_entries(input@),
{
    match toml::from_str::<toml::Table>(input) {
        Ok(table) => Some(
            table
                .into_iter()
                .map(|(key, value)| match value {
                    toml::Value::String(text) => (key, Some(text)),
                    _ => (key, None),
                })
                .collect(),
        ),
        Err(_) => None,
    }
}

/// What decoding `input` as a document holding exactly one string entry under
/// `key` yields: that entry's text, or nothing when the document is
/// malformed, holds any other number of entries, a different key, or a
/// non-string value.
pub open spec fn single_string_value(input: Seq<char>, key: Seq<char>) -> Option<Seq<char>> {
    match toml_string_entries(input) {
        None => None,
        Some(entries) => {
            if entries.len() == 1 && entries[0].0 == key && entries[0].1 is Some {
                entries[0].1
            } else {
                None
            }
        },
    }
}

/// Decodes `input` as a TOML document holding exactly one string entry under
/// `key` and returns that entry's text.  This is the shape check that the
/// sample versions use as their decoder: a document with extra entries, a
/// missing or different key, or a non-string value is not of the expected
/// shape.
pub fn decode_single_string(input: &str, key: &str) -> (r: Option<String>)
    ensures
        r.deep_view() == single_string_value(input@, key@),
{
    match parse_string_table(input) {
        None => None,
        Some(mut entries) => {
            if entries.len() == 1 {
                let (entry_key, entry_value) = entries.pop().unwrap();
                if entry_key == key.to_owned() {
                    entry_value
                } else {
                    None
                }
            } else {
                None
            }
        },
    }
}

} // verus!
