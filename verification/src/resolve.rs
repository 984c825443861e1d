//! The resolution algorithm.
//!
//! Given an input string and a target version, resolution first tries the
//! target's own decoder; a direct decode always wins, even when an older
//! version's decoder would also accept the input.  When the decode fails it
//! recurses to the predecessor version against the same input, then converts
//! the recursive result forward one step.  `None` comes back exactly when no
//! version from the target back to its root decodes the input; under the
//! fallible algorithm every other outcome is `Some(..)`, carrying either the
//! resolved value or the first conversion error met on the way forward,
//! widened into the target's error type.

use vstd::prelude::*;

use crate::chain::Migrate;
use crate::chain::TryMigrate;
use crate::chain::resolution_model;

verus! {

/// What resolving version `v` of chain `c` against `input` yields, when every
/// conversion step succeeds: the decoded value of the nearest version at or
/// below `v` whose decoder accepts the input, converted forward up to `v`;
/// `None` when no version down to the root decodes the input.
///
/// On a miswired chain (a predecessor link pointing forward or out of range,
/// which [`Migrate::predecessor_decreases`] rules out for every chain that
/// verifies) the walk stops and yields `None`.
pub open spec fn resolve_infallible_spec<C: Migrate>(
    c: &C,
    v: int,
    input: Seq<char>,
) -> Option<C::Model>
    decreases v,
{
    if c.decode_spec(v, input) is Some {
        c.decode_spec(v, input)
    } else if c.predecessor_spec(v) == v {
        None
    } else if 0 <= c.predecessor_spec(v) < v {
        match resolve_infallible_spec(c, c.predecessor_spec(v), input) {
            Some(prior) => Some(c.convert_spec(v, prior)),
            None => None,
        }
    } else {
        None
    }
}

/// What resolving version `v` of chain `c` against `input` yields, when a
/// conversion step may fail.
///
/// - `None`: no version from `v` back to the root decodes the input.
/// - `Some(Ok(value))`: the nearest version whose decoder accepts the input
///   was found and every conversion step from there up to `v` succeeded.
/// - `Some(Err(e))`: some conversion step on the way failed; `e` is that
///   step's error, widened once per link between the failing step and `v`.
pub open spec fn resolve_fallible_spec<C: TryMigrate>(
    c: &C,
    v: int,
    input: Seq<char>,
) -> Option<Result<C::Model, C::ErrorModel>>
    decreases v,
{
    if c.decode_spec(v, input) is Some {
        Some(Ok(c.decode_spec(v, input)->Some_0))
    } else if c.predecessor_spec(v) == v {
        None
    } else if 0 <= c.predecessor_spec(v) < v {
        match resolve_fallible_spec(c, c.predecessor_spec(v), input) {
            None => None,
            Some(Ok(prior)) => match c.convert_spec(v, prior) {
                Ok(value) => Some(Ok(value)),
                Err(e) => Some(Err(c.widen_spec(v, e))),
            },
            Some(Err(e)) => Some(Err(c.widen_spec(v, e))),
        }
    } else {
        None
    }
}

/// Resolves `input` to a value of version `version`, walking the infallible
/// chain `chain`: the input is decoded as the nearest version at or below
/// `version` that accepts it and converted forward from there.  `None` means
/// no version down to the root decodes the input.
pub fn resolve_infallible<C: Migrate>(chain: &C, version: usize, input: &str) -> (r: Option<
    C::Value,
>)
    requires
        version < chain.chain_len(),
    ensures
        r.deep_view() == resolve_infallible_spec(chain, version as int, input@),
    decreases version,
{
    match chain.decode(version, input) {
        Some(value) => Some(value),
        None => {
            let predecessor = chain.predecessor_of(version);
            if predecessor == version {
                None
            } else {
                proof {
                    chain.predecessor_decreases(version as int);
                }
                match resolve_infallible(chain, predecessor, input) {
                    Some(prior) => Some(chain.convert(version, prior)),
                    None => None,
                }
            }
        },
    }
}

/// Resolves `input` to a value of version `version`, walking the fallible
/// chain `chain`.  `None` means no version down to the root decodes the
/// input; `Some(Err(..))` carries the first conversion error met while
/// converting forward, widened into `version`'s error type; `Some(Ok(..))`
/// carries the resolved value.
pub fn resolve_fallible<C: TryMigrate>(chain: &C, version: usize, input: &str) -> (r: Option<
    Result<C::Value, C::Error>,
>)
    requires
        version < chain.chain_len(),
    ensures
        resolution_model(r) == resolve_fallible_spec(chain, version as int, input@),
    decreases version,
{
    match chain.decode(version, input) {
        Some(value) => Some(Ok(value)),
        None => {
            let predecessor = chain.predecessor_of(version);
            if predecessor == version {
                None
            } else {
                proof {
                    chain.predecessor_decreases(version as int);
                }
                match resolve_fallible(chain, predecessor, input) {
                    None => None,
                    Some(Ok(prior)) => match chain.convert(version, prior) {
                        Ok(value) => Some(Ok(value)),
                        Err(e) => Some(Err(chain.widen(version, e))),
                    },
                    Some(Err(e)) => Some(Err(chain.widen(version, e))),
                }
            }
        },
    }
}

} // verus!
