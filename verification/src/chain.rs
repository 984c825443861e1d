//! The chain model: how schema versions link together.
//!
//! A chain is a finite family of versions, numbered `0 .. chain_len()`.  Every
//! version names a predecessor, the version it migrates from; the predecessor
//! of a root version is the version itself, which marks the end of the line
//! and never stands for a real conversion step.  Each version brings a decoder
//! for its own wire shape and a converter from its predecessor's value.
//!
//! A chain is described by implementing [`Migrate`] (every conversion step
//! succeeds) or [`TryMigrate`] (a conversion step may fail).  The decoded
//! values and the errors are spoken of through their mathematical models
//! (their deep views), so that the resolution algorithm in [`crate::resolve`]
//! can be specified exactly; the `predecessor_decreases` obligation rejects a
//! miswired chain (a predecessor link that points forward or out of range)
//! when the implementation is verified, before any resolution runs.

use vstd::prelude::*;

verus! {

/// The marker for "no error is possible here": the error type of a chain
/// whose conversion steps all succeed.
#[derive(Debug, Clone, Copy, PartialEq, Eq, Structural)]
pub struct NoError;

impl DeepView for NoError {
    type V = NoError;

    open spec fn deep_view(&self) -> NoError {
        *self
    }
}

/// The model of a conversion outcome: each side of the result replaced by its
/// deep view.
pub open spec fn result_model<T: DeepView, E: DeepView>(r: Result<T, E>) -> Result<T::V, E::V> {
    match r {
        Ok(value) => Ok(value.deep_view()),
        Err(error) => Err(error.deep_view()),
    }
}

/// The model of a fallible resolution outcome: the value or error inside
/// replaced by its deep view.
pub open spec fn resolution_model<T: DeepView, E: DeepView>(r: Option<Result<T, E>>) -> Option<
    Result<T::V, E::V>,
> {
    match r {
        None => None,
        Some(inner) => Some(result_model(inner)),
    }
}

/// A chain of schema versions whose conversion steps always succeed.
///
/// Version `v` migrates from version `predecessor_of(v)`; a version whose
/// predecessor is itself is a root.  `Value` is the in-memory representation
/// shared by the chain (commonly a sum over the versions' shapes) and `Model`
/// is its mathematical model, the type that `Value`'s deep view yields and
/// that the spec-level chain description speaks of.
pub trait Migrate: Sized {
    /// The decoded, in-memory representation of the chain's data.
    type Value: DeepView<V = Self::Model>;

    /// The mathematical model of `Value`.
    type Model;

    /// How many versions the chain holds.
    spec fn chain_len(&self) -> nat;

    /// Which version `v` migrates from; `v` itself when `v` is a root.
    spec fn predecessor_spec(&self, v: int) -> int;

    /// What decoding the input as version `v` yields: the model of the
    /// decoded value, or nothing when the input does not have version `v`'s
    /// shape.
    spec fn decode_spec(&self, v: int, input: Seq<char>) -> Option<Self::Model>;

    /// What converting a value of version `v`'s predecessor up to version `v`
    /// yields, on the models.
    spec fn convert_spec(&self, v: int, prior: Self::Model) -> Self::Model;

    /// Every predecessor link points at the version itself (a root) or at an
    /// earlier version, so following the links terminates.  A chain that
    /// cannot meet this obligation is rejected when its implementation is
    /// verified, before any resolution runs.
    proof fn predecessor_decreases(&self, v: int)
        requires
            0 <= v < self.chain_len(),
        ensures
            0 <= self.predecessor_spec(v) <= v,
    ;

    /// How many versions the chain holds.
    fn num_versions(&self) -> (n: usize)
        ensures
            n == self.chain_len(),
    ;

    /// The version that `version` migrates from; `version` itself for a root.
    fn predecessor_of(&self, version: usize) -> (p: usize)
        requires
            version < self.chain_len(),
        ensures
            p == self.predecessor_spec(version as int),
    ;

    /// Whether `version` is a root: its predecessor is the version itself.
    fn is_root(&self, version: usize) -> (b: bool)
        requires
            version < self.chain_len(),
        ensures
            b == (self.predecessor_spec(version as int) == version as int),
    ;

    /// Decodes the input as version `version`; `None` means the input does
    /// not have that version's shape.
    fn decode(&self, version: usize, input: &str) -> (r: Option<Self::Value>)
        requires
            version < self.chain_len(),
        ensures
            r.deep_view() == self.decode_spec(version as int, input@),
    ;

    /// Converts a value of `version`'s predecessor up to `version`.
    fn convert(&self, version: usize, prior: Self::Value) -> (r: Self::Value)
        requires
            version < self.chain_len(),
        ensures
            r.deep_view() == self.convert_spec(version as int, prior.deep_view()),
    ;
}

/// A chain of schema versions whose conversion steps may fail.
///
/// Shaped like [`Migrate`], with two differences: a converter may return an
/// error, and the chain carries a `widen` operation that lifts an error
/// surfaced below version `v` into the error as version `v` reports it, so
/// that one error type can absorb failures from every link of the chain.
pub trait TryMigrate: Sized {
    /// The decoded, in-memory representation of the chain's data.
    type Value: DeepView<V = Self::Model>;

    /// The mathematical model of `Value`.
    type Model;

    /// The error type that a conversion step reports.
    type Error: DeepView<V = Self::ErrorModel>;

    /// The mathematical model of `Error`.
    type ErrorModel;

    /// How many versions the chain holds.
    spec fn chain_len(&self) -> nat;

    /// Which version `v` migrates from; `v` itself when `v` is a root.
    spec fn predecessor_spec(&self, v: int) -> int;

    /// What decoding the input as version `v` yields.
    spec fn decode_spec(&self, v: int, input: Seq<char>) -> Option<Self::Model>;

    /// What converting a value of version `v`'s predecessor up to version `v`
    /// yields, on the models: the converted value, or the error that the step
    /// raised.
    spec fn convert_spec(&self, v: int, prior: Self::Model) -> Result<
        Self::Model,
        Self::ErrorModel,
    >;

    /// What lifting an error raised below version `v` into version `v`'s
    /// error looks like, on the models.
    spec fn widen_spec(&self, v: int, error: Self::ErrorModel) -> Self::ErrorModel;

    /// Every predecessor link points at the version itself (a root) or at an
    /// earlier version, so following the links terminates.
    proof fn predecessor_decreases(&self, v: int)
        requires
            0 <= v < self.chain_len(),
        ensures
            0 <= self.predecessor_spec(v) <= v,
    ;

    /// How many versions the chain holds.
    fn num_versions(&self) -> (n: usize)
        ensures
            n == self.chain_len(),
    ;

    /// The version that `version` migrates from; `version` itself for a root.
    fn predecessor_of(&self, version: usize) -> (p: usize)
        requires
            version < self.chain_len(),
        ensures
            p == self.predecessor_spec(version as int),
    ;

    /// Whether `version` is a root: its predecessor is the version itself.
    fn is_root(&self, version: usize) -> (b: bool)
        requires
            version < self.chain_len(),
        ensures
            b == (self.predecessor_spec(version as int) == version as int),
    ;

    /// Decodes the input as version `version`; `None` means the input does
    /// not have that version's shape.
    fn decode(&self, version: usize, input: &str) -> (r: Option<Self::Value>)
        requires
            version < self.chain_len(),
        ensures
            r.deep_view() == self.decode_spec(version as int, input@),
    ;

    /// Converts a value of `version`'s predecessor up to `version`, or
    /// reports why the step failed.
    fn convert(&self, version: usize, prior: Self::Value) -> (r: Result<Self::Value, Self::Error>)
        requires
            version < self.chain_len(),
        ensures
            result_model(r) == self.convert_spec(version as int, prior.deep_view()),
    ;

    /// Lifts an error raised below `version` into `version`'s error.
    fn widen(&self, version: usize, error: Self::Error) -> (r: Self::Error)
        requires
            version < self.chain_len(),
        ensures
            r.deep_view() == self.widen_spec(version as int, error.deep_view()),
    ;
}

/// An infallible chain is in particular a fallible one whose conversion steps
/// never fail: its error type is the [`NoError`] marker and widening is the
/// identity, so infallible chains compose transparently under the fallible
/// resolution algorithm.
impl<C: Migrate> TryMigrate for C {
    type Value = <C as Migrate>::Value;

    type Model = <C as Migrate>::Model;

    type Error = NoError;

    type ErrorModel = NoError;

    open spec fn chain_len(&self) -> nat {
        Migrate::chain_len(self)
    }

    open spec fn predecessor_spec(&self, v: int) -> int {
        Migrate::predecessor_spec(self, v)
    }

    open spec fn decode_spec(&self, v: int, input: Seq<char>) -> Option<Self::Model> {
        Migrate::decode_spec(self, v, input)
    }

    open spec fn convert_spec(&self, v: int, prior: Self::Model) -> Result<Self::Model, NoError> {
        Ok(Migrate::convert_spec(self, v, prior))
    }

    open spec fn widen_spec(&self, v: int, error: NoError) -> NoError {
        error
    }

    proof fn predecessor_decreases(&self, v: int) {
        Migrate::predecessor_decreases(self, v);
    }

    fn num_versions(&self) -> (n: usize) {
        Migrate::num_versions(self)
    }

    fn predecessor_of(&self, version: usize) -> (p: usize) {
        Migrate::predecessor_of(self, version)
    }

    fn is_root(&self, version: usize) -> (b: bool) {
        Migrate::is_root(self, version)
    }

    fn decode(&self, version: usize, input: &str) -> (r: Option<Self::Value>) {
        Migrate::decode(self, version, input)
    }

    fn convert(&self, version: usize, prior: Self::Value) -> (r: Result<Self::Value, NoError>) {
        Ok(Migrate::convert(self, version, prior))
    }

    fn widen(&self, version: usize, error: NoError) -> (r: NoError) {
        error
    }
}

} // verus!
