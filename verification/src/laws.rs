//! What resolution guarantees, stated and proved once for every chain.
//!
//! Each lemma here holds for any implementation of [`Migrate`] or
//! [`TryMigrate`] and any input; the sample chains and their tests only
//! illustrate them on concrete data.

use vstd::prelude::*;

use crate::chain::Migrate;
use crate::chain::NoError;
use crate::chain::TryMigrate;
use crate::resolve::resolve_fallible_spec;
use crate::resolve::resolve_infallible_spec;

verus! {

/// At a root version, resolution is exactly the root's own decoder: input
/// that decodes as the root resolves to that decoded value, and input that
/// does not yields nothing, for there is nowhere earlier to look.
pub proof fn lemma_root_resolution<C: Migrate>(c: &C, v: int, input: Seq<char>)
    requires
        0 <= v < c.chain_len(),
        c.predecessor_spec(v) == v,
    ensures
        resolve_infallible_spec(c, v, input) == c.decode_spec(v, input),
{
}

/// The target's own wire shape always takes priority: when the input decodes
/// directly as the target version, resolution returns that decoded value and
/// no conversion is applied, whatever any older version's decoder would say.
pub proof fn lemma_direct_decode_priority<C: Migrate>(c: &C, v: int, input: Seq<char>)
    requires
        0 <= v < c.chain_len(),
        c.decode_spec(v, input) is Some,
    ensures
        resolve_infallible_spec(c, v, input) == c.decode_spec(v, input),
{
}

/// Direct decoding short-circuits conversion under the fallible algorithm as
/// well: when the input decodes as the target version, the result is that
/// value, so the conversion path (resolve the predecessor, then convert) is
/// never taken for such input — the two ways of producing a target value are
/// unreachable simultaneously.
pub proof fn lemma_decode_short_circuits<C: TryMigrate>(
    c: &C,
    v: int,
    input: Seq<char>,
    value: C::Model,
)
    requires
        0 <= v < c.chain_len(),
        c.decode_spec(v, input) == Some(value),
    ensures
        resolve_fallible_spec(c, v, input) == Some(Ok::<C::Model, C::ErrorModel>(value)),
{
}

/// When the target's decoder rejects the input but its predecessor's decoder
/// accepts it, resolution returns exactly the registered converter applied to
/// the predecessor-decoded value.
pub proof fn lemma_predecessor_decode<C: Migrate>(c: &C, v: int, input: Seq<char>, prior: C::Model)
    requires
        0 <= v < c.chain_len(),
        c.decode_spec(v, input) is None,
        c.predecessor_spec(v) != v,
        c.decode_spec(c.predecessor_spec(v), input) == Some(prior),
    ensures
        resolve_infallible_spec(c, v, input) == Some(c.convert_spec(v, prior)),
{
    c.predecessor_decreases(v);
    assert(resolve_infallible_spec(c, c.predecessor_spec(v), input) == Some(prior));
}

/// A failing conversion step surfaces as an error, never as silence: when the
/// target's decoder rejects the input, its predecessor's decoder accepts it,
/// and the conversion step fails, the fallible resolution returns that
/// step's error widened into the target's error type — not `None` and not a
/// success.
pub proof fn lemma_conversion_failure_surfaces<C: TryMigrate>(
    c: &C,
    v: int,
    input: Seq<char>,
    prior: C::Model,
    e: C::ErrorModel,
)
    requires
        0 <= v < c.chain_len(),
        c.decode_spec(v, input) is None,
        c.predecessor_spec(v) != v,
        c.decode_spec(c.predecessor_spec(v), input) == Some(prior),
        c.convert_spec(v, prior) == Err::<C::Model, C::ErrorModel>(e),
    ensures
        resolve_fallible_spec(c, v, input) == Some(Err::<C::Model, C::ErrorModel>(c.widen_spec(v, e))),
{
    c.predecessor_decreases(v);
    assert(resolve_fallible_spec(c, c.predecessor_spec(v), input) == Some(
        Ok::<C::Model, C::ErrorModel>(prior),
    ));
}

/// Input that no version from the target down to the root decodes resolves to
/// nothing under the infallible algorithm.
pub proof fn lemma_unrelated_input_infallible<C: Migrate>(c: &C, v: int, input: Seq<char>)
    requires
        0 <= v < c.chain_len(),
        forall|w: int| 0 <= w <= v ==> c.decode_spec(w, input) is None,
    ensures
        resolve_infallible_spec(c, v, input) is None,
    decreases v,
{
    c.predecessor_decreases(v);
    if c.predecessor_spec(v) < v {
        lemma_unrelated_input_infallible(c, c.predecessor_spec(v), input);
    }
}

/// Input that no version from the target down to the root decodes resolves to
/// nothing under the fallible algorithm as well: an error is only ever
/// reported after some version has decoded the input.
pub proof fn lemma_unrelated_input_fallible<C: TryMigrate>(c: &C, v: int, input: Seq<char>)
    requires
        0 <= v < c.chain_len(),
        forall|w: int| 0 <= w <= v ==> c.decode_spec(w, input) is None,
    ensures
        resolve_fallible_spec(c, v, input) is None,
    decreases v,
{
    c.predecessor_decreases(v);
    if c.predecessor_spec(v) < v {
        lemma_unrelated_input_fallible(c, c.predecessor_spec(v), input);
    }
}

/// Whether every version on the predecessor path from `v` back to its root
/// fails to decode the input.  (On a miswired link the walk stops, as the
/// resolution itself does.)
pub open spec fn path_decodes_none<C: TryMigrate>(c: &C, v: int, input: Seq<char>) -> bool
    decreases v,
{
    &&& c.decode_spec(v, input) is None
    &&& if 0 <= c.predecessor_spec(v) < v {
        path_decodes_none(c, c.predecessor_spec(v), input)
    } else {
        true
    }
}

/// The error taxonomy's silent case, exactly: resolution comes back empty if
/// and only if every version on the predecessor path from the target back to
/// its root fails to decode the input.  Every other outcome — a resolved
/// value or a conversion error — is reported as `Some(..)`.
pub proof fn lemma_none_iff_nothing_decodes<C: TryMigrate>(c: &C, v: int, input: Seq<char>)
    requires
        0 <= v < c.chain_len(),
    ensures
        (resolve_fallible_spec(c, v, input) is None) <==> path_decodes_none(c, v, input),
    decreases v,
{
    c.predecessor_decreases(v);
    if c.decode_spec(v, input) is None && c.predecessor_spec(v) < v {
        lemma_none_iff_nothing_decodes(c, c.predecessor_spec(v), input);
    }
}

/// An error born below the target is observable at the target through the
/// widening conversion: when the target's decoder rejects the input and
/// resolving its predecessor reports an error, the target reports exactly
/// that error widened one more link — never a swallowed or substituted one.
pub proof fn lemma_error_widens_through_links<C: TryMigrate>(
    c: &C,
    v: int,
    input: Seq<char>,
    e: C::ErrorModel,
)
    requires
        0 <= v < c.chain_len(),
        c.decode_spec(v, input) is None,
        c.predecessor_spec(v) != v,
        resolve_fallible_spec(c, c.predecessor_spec(v), input) == Some(
            Err::<C::Model, C::ErrorModel>(e),
        ),
    ensures
        resolve_fallible_spec(c, v, input) == Some(Err::<C::Model, C::ErrorModel>(c.widen_spec(v, e))),
{
    c.predecessor_decreases(v);
}

/// An infallible chain composes transparently under the fallible algorithm:
/// resolving it fallibly yields `Some(Ok(..))` exactly where resolving it
/// infallibly yields a value, and `None` exactly where the infallible
/// resolution yields nothing — an error is impossible.
pub proof fn lemma_infallible_composes_transparently<C: Migrate>(c: &C, v: int, input: Seq<char>)
    requires
        0 <= v < Migrate::chain_len(c),
    ensures
        resolve_fallible_spec(c, v, input) == (match resolve_infallible_spec(c, v, input) {
            Some(value) => Some(Ok::<C::Model, NoError>(value)),
            None => None::<Result<C::Model, NoError>>,
        }),
    decreases v,
{
    Migrate::predecessor_decreases(c, v);
    if Migrate::decode_spec(c, v, input) is Some {
    } else if Migrate::predecessor_spec(c, v) == v {
    } else {
        lemma_infallible_composes_transparently(c, Migrate::predecessor_spec(c, v), input);
    }
}

} // verus!
