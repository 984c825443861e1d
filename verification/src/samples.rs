//! Ready-made chains over small TOML schemas.
//!
//! Three chains, each the registration an application would write for its own
//! data.  Every version's wire shape is a TOML document holding exactly one
//! string entry, so each decoder is [`crate::decode::decode_single_string`]
//! under that version's key:
//!
//! - [`NoteChain`]: a single version, the root alone.
//! - [`PersonChain`]: two versions, infallible conversion.
//! - [`MetadataChain`]: three versions, whose first conversion step fails on
//!   an empty name.
//! - [`AmbiguousChain`]: two versions that accept the same wire shape, laying
//!   the inherent decode ambiguity open: the value records which decoder
//!   produced it, and resolution always prefers the target's own decoder.

use vstd::prelude::*;

use crate::chain::Migrate;
use crate::chain::TryMigrate;
use crate::decode::decode_single_string;
use crate::decode::single_string_value;

verus! {

// ---------------------------------------------------------------------------
// A single-version chain: the root alone.
// ---------------------------------------------------------------------------
/// A note that has only ever had one schema version, `text = "…"`.
#[derive(Debug, PartialEq, Eq)]
pub struct Note {
    pub text: String,
}

/// The mathematical model of [`Note`].
pub struct NoteModel {
    pub text: Seq<char>,
}

impl DeepView for Note {
    type V = NoteModel;

    open spec fn deep_view(&self) -> NoteModel {
        NoteModel { text: self.text@ }
    }
}

/// The single-version note chain: its root is its target, and the root's
/// converter is the identity — it marks the end of the line and never stands
/// for a real conversion step.
pub struct NoteChain;

impl Migrate for NoteChain {
    type Value = Note;

    type Model = NoteModel;

    open spec fn chain_len(&self) -> nat {
        1
    }

    open spec fn predecessor_spec(&self, v: int) -> int {
        v
    }

    open spec fn decode_spec(&self, v: int, input: Seq<char>) -> Option<NoteModel> {
        if v == 0 {
            match single_string_value(input, "text"@) {
                Some(text) => Some(NoteModel { text }),
                None => None,
            }
        } else {
            None
        }
    }

    open spec fn convert_spec(&self, v: int, prior: NoteModel) -> NoteModel {
        prior
    }

    proof fn predecessor_decreases(&self, v: int) {
    }

    fn num_versions(&self) -> (n: usize) {
        1
    }

    fn predecessor_of(&self, version: usize) -> (p: usize) {
        version
    }

    fn is_root(&self, version: usize) -> (b: bool) {
        true
    }

    fn decode(&self, version: usize, input: &str) -> (r: Option<Note>) {
        match decode_single_string(input, "text") {
            Some(text) => Some(Note { text }),
            None => None,
        }
    }

    fn convert(&self, version: usize, prior: Note) -> (r: Note) {
        prior
    }
}

// ---------------------------------------------------------------------------
// An infallible two-version chain.
// ---------------------------------------------------------------------------
/// A person record: version 0 kept the name under `name`, version 1 keeps it
/// under `full_name`.
#[derive(Debug, PartialEq, Eq)]
pub enum Person {
    V1 { name: String },
    V2 { full_name: String },
}

/// The mathematical model of [`Person`]: the same shape over character
/// sequences.
pub enum PersonModel {
    V1 { name: Seq<char> },
    V2 { full_name: Seq<char> },
}

impl DeepView for Person {
    type V = PersonModel;

    open spec fn deep_view(&self) -> PersonModel {
        match self {
            Person::V1 { name } => PersonModel::V1 { name: name@ },
            Person::V2 { full_name } => PersonModel::V2 { full_name: full_name@ },
        }
    }
}

/// The two-version person chain: version 0 (`name = "…"`) migrates into
/// version 1 (`full_name = "…"`) by carrying the name over, and the step
/// cannot fail.
pub struct PersonChain;

impl Migrate for PersonChain {
    type Value = Person;

    type Model = PersonModel;

    open spec fn chain_len(&self) -> nat {
        2
    }

    open spec fn predecessor_spec(&self, v: int) -> int {
        if v <= 0 {
            v
        } else {
            v - 1
        }
    }

    open spec fn decode_spec(&self, v: int, input: Seq<char>) -> Option<PersonModel> {
        if v == 0 {
            match single_string_value(input, "name"@) {
                Some(name) => Some(PersonModel::V1 { name }),
                None => None,
            }
        } else if v == 1 {
            match single_string_value(input, "full_name"@) {
                Some(full_name) => Some(PersonModel::V2 { full_name }),
                None => None,
            }
        } else {
            None
        }
    }

    open spec fn convert_spec(&self, v: int, prior: PersonModel) -> PersonModel {
        match prior {
            PersonModel::V1 { name } => PersonModel::V2 { full_name: name },
            PersonModel::V2 { full_name } => PersonModel::V2 { full_name },
        }
    }

    proof fn predecessor_decreases(&self, v: int) {
    }

    fn num_versions(&self) -> (n: usize) {
        2
    }

    fn predecessor_of(&self, version: usize) -> (p: usize) {
        if version == 0 {
            0
        } else {
            version - 1
        }
    }

    fn is_root(&self, version: usize) -> (b: bool) {
        version == 0
    }

    fn decode(&self, version: usize, input: &str) -> (r: Option<Person>) {
        if version == 0 {
            match decode_single_string(input, "name") {
                Some(name) => Some(Person::V1 { name }),
                None => None,
            }
        } else {
            match decode_single_string(input, "full_name") {
                Some(full_name) => Some(Person::V2 { full_name }),
                None => None,
            }
        }
    }

    fn convert(&self, version: usize, prior: Person) -> (r: Person) {
        match prior {
            Person::V1 { name } => Person::V2 { full_name: name },
            Person::V2 { full_name } => Person::V2 { full_name },
        }
    }
}

// ---------------------------------------------------------------------------
// A fallible three-version chain.
// ---------------------------------------------------------------------------
/// A metadata record in its three historical shapes: `name = "…"`, then
/// `full_name = "…"`, then `display_name = "…"`.
#[derive(Debug, PartialEq, Eq)]
pub enum Metadata {
    V1 { name: String },
    V2 { full_name: String },
    V3 { display_name: String },
}

/// The mathematical model of [`Metadata`].
pub enum MetadataModel {
    V1 { name: Seq<char> },
    V2 { full_name: Seq<char> },
    V3 { display_name: Seq<char> },
}

impl DeepView for Metadata {
    type V = MetadataModel;

    open spec fn deep_view(&self) -> MetadataModel {
        match self {
            Metadata::V1 { name } => MetadataModel::V1 { name: name@ },
            Metadata::V2 { full_name } => MetadataModel::V2 { full_name: full_name@ },
            Metadata::V3 { display_name } => MetadataModel::V3 { display_name: display_name@ },
        }
    }
}

/// The error of the metadata chain: an empty name cannot be migrated.
/// `raised_at` is the version whose conversion step failed; `observed_at` is
/// the version at whose error type the failure is expressed, moved up one
/// link per widening.
#[derive(Debug, Clone, Copy, PartialEq, Eq, Structural)]
pub struct MetadataError {
    pub raised_at: u64,
    pub observed_at: u64,
}

impl DeepView for MetadataError {
    type V = MetadataError;

    open spec fn deep_view(&self) -> MetadataError {
        *self
    }
}

/// The three-version metadata chain.  The step from version 0 to version 1
/// rejects an empty name; the step from version 1 to version 2 carries the
/// name over unchanged.
pub struct MetadataChain;

impl TryMigrate for MetadataChain {
    type Value = Metadata;

    type Model = MetadataModel;

    type Error = MetadataError;

    type ErrorModel = MetadataError;

    open spec fn chain_len(&self) -> nat {
        3
    }

    open spec fn predecessor_spec(&self, v: int) -> int {
        if v <= 0 {
            v
        } else {
            v - 1
        }
    }

    open spec fn decode_spec(&self, v: int, input: Seq<char>) -> Option<MetadataModel> {
        if v == 0 {
            match single_string_value(input, "name"@) {
                Some(name) => Some(MetadataModel::V1 { name }),
                None => None,
            }
        } else if v == 1 {
            match single_string_value(input, "full_name"@) {
                Some(full_name) => Some(MetadataModel::V2 { full_name }),
                None => None,
            }
        } else if v == 2 {
            match single_string_value(input, "display_name"@) {
                Some(display_name) => Some(MetadataModel::V3 { display_name }),
                None => None,
            }
        } else {
            None
        }
    }

    open spec fn convert_spec(&self, v: int, prior: MetadataModel) -> Result<
        MetadataModel,
        MetadataError,
    > {
        if v == 1 {
            match prior {
                MetadataModel::V1 { name } => {
                    if name.len() == 0 {
                        Err(MetadataError { raised_at: 1, observed_at: 1 })
                    } else {
                        Ok(MetadataModel::V2 { full_name: name })
                    }
                },
                other => Ok(other),
            }
        } else if v == 2 {
            match prior {
                MetadataModel::V2 { full_name } => Ok(
                    MetadataModel::V3 { display_name: full_name },
                ),
                other => Ok(other),
            }
        } else {
            Ok(prior)
        }
    }

    open spec fn widen_spec(&self, v: int, error: MetadataError) -> MetadataError {
        MetadataError { raised_at: error.raised_at, observed_at: v as u64 }
    }

    proof fn predecessor_decreases(&self, v: int) {
    }

    fn num_versions(&self) -> (n: usize) {
        3
    }

    fn predecessor_of(&self, version: usize) -> (p: usize) {
        if version == 0 {
            0
        } else {
            version - 1
        }
    }

    fn is_root(&self, version: usize) -> (b: bool) {
        version == 0
    }

    fn decode(&self, version: usize, input: &str) -> (r: Option<Metadata>) {
        if version == 0 {
            match decode_single_string(input, "name") {
                Some(name) => Some(Metadata::V1 { name }),
                None => None,
            }
        } else if version == 1 {
            match decode_single_string(input, "full_name") {
                Some(full_name) => Some(Metadata::V2 { full_name }),
                None => None,
            }
        } else {
            match decode_single_string(input, "display_name") {
                Some(display_name) => Some(Metadata::V3 { display_name }),
                None => None,
            }
        }
    }

    fn convert(&self, version: usize, prior: Metadata) -> (r: Result<Metadata, MetadataError>) {
        if version == 1 {
            match prior {
                Metadata::V1 { name } => {
                    if name.as_str().is_empty() {
                        Err(MetadataError { raised_at: 1, observed_at: 1 })
                    } else {
                        Ok(Metadata::V2 { full_name: name })
                    }
                },
                other => Ok(other),
            }
        } else if version == 2 {
            match prior {
                Metadata::V2 { full_name } => Ok(Metadata::V3 { display_name: full_name }),
                other => Ok(other),
            }
        } else {
            Ok(prior)
        }
    }

    fn widen(&self, version: usize, error: MetadataError) -> (r: MetadataError) {
        MetadataError { raised_at: error.raised_at, observed_at: version as u64 }
    }
}

// ---------------------------------------------------------------------------
// A chain whose versions accept the same wire shape.
// ---------------------------------------------------------------------------
/// A record whose two versions both serialize as `name = "…"`, so either
/// decoder accepts the other's output — the inherent ambiguity of
/// indistinguishable shapes.  The value keeps its provenance, which lets a
/// caller observe that resolution never converts when the target's own
/// decoder accepts the input.
#[derive(Debug, PartialEq, Eq)]
pub enum Provenance {
    DecodedAsV1 { name: String },
    DecodedAsV2 { name: String },
    ConvertedFromV1 { name: String },
}

/// The mathematical model of [`Provenance`].
pub enum ProvenanceModel {
    DecodedAsV1 { name: Seq<char> },
    DecodedAsV2 { name: Seq<char> },
    ConvertedFromV1 { name: Seq<char> },
}

impl DeepView for Provenance {
    type V = ProvenanceModel;

    open spec fn deep_view(&self) -> ProvenanceModel {
        match self {
            Provenance::DecodedAsV1 { name } => ProvenanceModel::DecodedAsV1 { name: name@ },
            Provenance::DecodedAsV2 { name } => ProvenanceModel::DecodedAsV2 { name: name@ },
            Provenance::ConvertedFromV1 { name } => ProvenanceModel::ConvertedFromV1 {
                name: name@,
            },
        }
    }
}

/// The two-version chain with one shared wire shape, `name = "…"`.
pub struct AmbiguousChain;

impl Migrate for AmbiguousChain {
    type Value = Provenance;

    type Model = ProvenanceModel;

    open spec fn chain_len(&self) -> nat {
        2
    }

    open spec fn predecessor_spec(&self, v: int) -> int {
        if v <= 0 {
            v
        } else {
            v - 1
        }
    }

    open spec fn decode_spec(&self, v: int, input: Seq<char>) -> Option<ProvenanceModel> {
        if v == 0 {
            match single_string_value(input, "name"@) {
                Some(name) => Some(ProvenanceModel::DecodedAsV1 { name }),
                None => None,
            }
        } else if v == 1 {
            match single_string_value(input, "name"@) {
                Some(name) => Some(ProvenanceModel::DecodedAsV2 { name }),
                None => None,
            }
        } else {
            None
        }
    }

    open spec fn convert_spec(&self, v: int, prior: ProvenanceModel) -> ProvenanceModel {
        match prior {
            ProvenanceModel::DecodedAsV1 { name } => ProvenanceModel::ConvertedFromV1 { name },
            other => other,
        }
    }

    proof fn predecessor_decreases(&self, v: int) {
    }

    fn num_versions(&self) -> (n: usize) {
        2
    }

    fn predecessor_of(&self, version: usize) -> (p: usize) {
        if version == 0 {
            0
        } else {
            version - 1
        }
    }

    fn is_root(&self, version: usize) -> (b: bool) {
        version == 0
    }

    fn decode(&self, version: usize, input: &str) -> (r: Option<Provenance>) {
        match decode_single_string(input, "name") {
            Some(name) => {
                if version == 0 {
                    Some(Provenance::DecodedAsV1 { name })
                } else {
                    Some(Provenance::DecodedAsV2 { name })
                }
            },
            None => None,
        }
    }

    fn convert(&self, version: usize, prior: Provenance) -> (r: Provenance) {
        match prior {
            Provenance::DecodedAsV1 { name } => Provenance::ConvertedFromV1 { name },
            other => other,
        }
    }
}

} // verus!
