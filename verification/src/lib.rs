//! Version-chain resolution for serialized data.
//!
//! A program that has changed the shape of its serialized data over time can
//! still read strings written under an older schema: each schema version names
//! the version it migrates from, forming a chain that ends at a root version
//! linked to itself.  Resolution decodes the input as the newest version that
//! accepts it and then converts forward, link by link, until the target
//! version is reached, widening conversion errors along the way.
//!
//! A chain is registered by implementing [`Migrate`] (every conversion step
//! succeeds) or [`TryMigrate`] (a step may fail); a miswired chain is rejected
//! when that implementation is verified.  [`resolve_infallible`] and
//! [`resolve_fallible`] walk a chain, and the `lemma_` functions state and
//! prove what any resolution guarantees.  The sample chains show the traits
//! over small TOML schemas, decoded through the `toml` crate.

mod chain;
mod decode;
mod error;
mod laws;
mod resolve;
mod samples;

pub use chain::Migrate;
pub use chain::NoError;
pub use chain::TryMigrate;
pub use chain::resolution_model;
pub use chain::result_model;
pub use decode::decode_single_string;
pub use decode::single_string_value;
pub use decode::toml_string_entries;
pub use error::MagicError;
pub use error::MagicError as MigrateError;
pub use error::lemma_from_string_preserves_message;
pub use laws::lemma_conversion_failure_surfaces;
pub use laws::lemma_decode_short_circuits;
pub use laws::lemma_direct_decode_priority;
pub use laws::lemma_error_widens_through_links;
pub use laws::lemma_infallible_composes_transparently;
pub use laws::lemma_none_iff_nothing_decodes;
pub use laws::lemma_predecessor_decode;
pub use laws::lemma_root_resolution;
pub use laws::lemma_unrelated_input_fallible;
pub use laws::lemma_unrelated_input_infallible;
pub use laws::path_decodes_none;
pub use resolve::resolve_fallible;
pub use resolve::resolve_fallible_spec;
pub use resolve::resolve_infallible;
pub use resolve::resolve_infallible_spec;
pub use samples::AmbiguousChain;
pub use samples::Metadata;
pub use samples::MetadataChain;
pub use samples::MetadataError;
pub use samples::MetadataModel;
pub use samples::Note;
pub use samples::NoteChain;
pub use samples::NoteModel;
pub use samples::Person;
pub use samples::PersonChain;
pub use samples::PersonModel;
pub use samples::Provenance;
pub use samples::ProvenanceModel;
