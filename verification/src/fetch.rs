//! The shape that a response must have.

use crate::error::ValidationError;
use vstd::prelude::*;

verus! {

/// The only entry of a list that answers a request for one item, or the
/// mismatch between the one asked for and the number that came.
pub open spec fn single_entry<B>(entries: Seq<B>) -> Result<B, ValidationError> {
    if entries.len() == 1 {
        Ok(entries[0])
    } else {
        Err(ValidationError::CountMismatch { expected: 1, actual: entries.len() as usize })
    }
}

/// Checks the answer to a request for the body of one block.
///
/// A list of exactly one body yields that body. Any other length is refused,
/// whatever the list holds.
pub fn single_body<B>(bodies: Vec<B>) -> (checked: Result<B, ValidationError>)
    ensures
        checked == single_entry(bodies@),
        checked is Ok <==> bodies@.len() == 1,
{
    let mut bodies = bodies;
    let actual = bodies.len();
    if actual != 1 {
        return Err(ValidationError::CountMismatch { expected: 1, actual });
    }
    match bodies.pop() {
        Some(body) => Ok(body),
        None => Err(ValidationError::CountMismatch { expected: 1, actual }),
    }
}

} // verus!
