//! How a row function executes nullable batches.

use vstd::prelude::*;

use crate::dtype::DType;
use crate::mask::{self, Mask};
use crate::scalar_fn::row::result::SinkResult;
use crate::scalar_fn::row::tuple::ElementTuple;

verus! {

/// The execution policy and output type that planning selects.
#[derive(Debug)]
pub struct BatchPlan {
    /// The non-nullable type of the built column.
    pub output_dtype: DType,
    /// How nullable rows are executed.
    pub policy: RowPolicy,
}

/// How nullable rows are executed.
#[derive(Clone, Copy, PartialEq, Eq, Structural, Debug)]
pub enum RowPolicy {
    /// Evaluate all rows and mask the result.
    Dense,
    /// Evaluate all rows, and only the valid ones again if a deferred error is raised.
    DenseWithRetry,
    /// Execute only valid rows.
    ValidOnly {
        /// Relative per-row decode work that filtering would avoid.
        filtered_decode_cost: usize,
    },
}

/// Every row may be evaluated: each argument is readable behind nulls and decodes without fail.
pub open spec fn dense_arguments<Args: ElementTuple>() -> bool {
    Args::dense_safe() && !Args::decode_fallible()
}

impl RowPolicy {
    /// The policy for an infallible owned output.
    pub fn for_owned_output<Args: ElementTuple>() -> (out: Self)
        ensures
            out == (if dense_arguments::<Args>() {
                RowPolicy::Dense
            } else {
                RowPolicy::ValidOnly { filtered_decode_cost: Args::decode_cost() }
            }),
    {
        proof {
            Args::constants_hold();
        }
        if Args::DENSE_SAFE && !Args::DECODE_FALLIBLE {
            RowPolicy::Dense
        } else {
            RowPolicy::ValidOnly { filtered_decode_cost: Args::FILTERED_DECODE_COST }
        }
    }

    /// The policy for an owned output with deferred failure evidence.
    pub fn for_deferred_output<Args: ElementTuple>() -> (out: Self)
        ensures
            out == (if dense_arguments::<Args>() {
                RowPolicy::DenseWithRetry
            } else {
                RowPolicy::ValidOnly { filtered_decode_cost: Args::decode_cost() }
            }),
    {
        proof {
            Args::constants_hold();
        }
        if Args::DENSE_SAFE && !Args::DECODE_FALLIBLE {
            RowPolicy::DenseWithRetry
        } else {
            RowPolicy::ValidOnly { filtered_decode_cost: Args::FILTERED_DECODE_COST }
        }
    }

    /// The policy for rows written into a sink.
    pub fn for_sink<Args: ElementTuple, R: SinkResult>() -> (out: Self)
        ensures
            out == (if dense_arguments::<Args>() && !R::fallible() {
                if R::deferrable() {
                    RowPolicy::DenseWithRetry
                } else {
                    RowPolicy::Dense
                }
            } else {
                RowPolicy::ValidOnly { filtered_decode_cost: Args::decode_cost() }
            }),
    {
        proof {
            Args::constants_hold();
            R::constants_hold();
        }
        if Args::DENSE_SAFE && !Args::DECODE_FALLIBLE && !R::FALLIBLE {
            if R::DEFERRED {
                RowPolicy::DenseWithRetry
            } else {
                RowPolicy::Dense
            }
        } else {
            RowPolicy::ValidOnly { filtered_decode_cost: Args::FILTERED_DECODE_COST }
        }
    }
}

/// Skipping is preferred for a mask with both valid and invalid rows: always where filtering saves
/// no decode work, from half of the rows on where it saves one decode, and from 85 in 100 on where
/// it saves more.
pub open spec fn skipping_preferred(filtered_decode_cost: nat, valid: Seq<bool>) -> bool {
    if filtered_decode_cost == 0 {
        true
    } else if filtered_decode_cost == 1 {
        2 * mask::true_count(valid) >= valid.len()
    } else {
        100 * mask::true_count(valid) >= 85 * valid.len()
    }
}

/// Whether skipping invalid rows is preferred over filtering for a mixed mask.
pub fn skipping_beats_filtering(filtered_decode_cost: usize, valid: &Mask) -> (out: bool)
    ensures
        out == skipping_preferred(filtered_decode_cost as nat, valid@),
{
    if filtered_decode_cost == 0 {
        return true;
    }
    let count: usize = valid.true_count();
    let rows: usize = valid.len();
    if filtered_decode_cost == 1 {
        2 * (count as u128) >= rows as u128
    } else {
        100 * (count as u128) >= 85 * (rows as u128)
    }
}

} // verus!
