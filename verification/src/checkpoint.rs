//! The checkpoint as the store keeps it: one record, whose value is the last
//! height that was fully processed, written as a decimal numeral.

use crate::decimal::{decimal, decimal_value, lemma_value_of_decimal, parse_decimal, to_decimal};
use crate::error::Failure;
use vstd::prelude::*;

verus! {

/// What a stored value says. No value is no checkpoint: a first run. A value
/// that is no height is not taken for a first run, it is a failure of the
/// store.
pub open spec fn stored_checkpoint(value: Option<Seq<char>>) -> Result<Option<u64>, Failure> {
    match value {
        None => Ok(None),
        Some(text) => match decimal_value(text) {
            Some(height) => Ok(Some(height)),
            None => Err(Failure::Persistence),
        },
    }
}

/// The value to store for `height`.
pub fn encode(height: u64) -> (value: String)
    ensures
        value@ == decimal(height as nat),
        stored_checkpoint(Some(value@)) == Ok::<Option<u64>, Failure>(Some(height)),
{
    proof {
        lemma_value_of_decimal(height);
    }
    to_decimal(height)
}

/// Reads what the store holds: the checkpoint, or none on a first run.
pub fn decode(value: Option<&str>) -> (checkpoint: Result<Option<u64>, Failure>)
    ensures
        checkpoint == stored_checkpoint(
            match value {
                Some(text) => Some(text@),
                None => None,
            },
        ),
{
    match value {
        None => Ok(None),
        Some(text) => match parse_decimal(text) {
            Some(height) => Ok(Some(height)),
            None => Err(Failure::Persistence),
        },
    }
}

/// What was stored for a height reads back as that height.
pub proof fn lemma_checkpoint_round_trip(height: u64)
    ensures
        stored_checkpoint(Some(decimal(height as nat))) == Ok::<Option<u64>, Failure>(
            Some(height),
        ),
{
    lemma_value_of_decimal(height);
}

} // verus!
