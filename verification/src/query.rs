//! Which observation sequences and time steps the inference routines accept.
//!
//! Every routine refuses an empty observation sequence; filtering and smoothing
//! at step `t` also refuse a step past the last observation.

use vstd::prelude::*;
use crate::trit::Ternary;

verus! {

/// Why a query on an observation sequence is refused.
#[derive(Clone, Copy, Debug, PartialEq, Eq, Structural)]
pub enum QueryError {
    /// The observation sequence is empty.
    EmptyObservations,
    /// Step `t` lies past the last of `len` observations.
    TimeOutOfRange { t: usize, len: usize },
}

/// Accept a non-empty observation sequence; refuse an empty one.
pub fn check_observations(obs: &[Ternary]) -> (r: Result<(), QueryError>)
    ensures
        r is Ok <==> obs@.len() > 0,
        r is Err ==> r == Err::<(), QueryError>(QueryError::EmptyObservations),
{
    if obs.len() == 0 {
        Err(QueryError::EmptyObservations)
    } else {
        Ok(())
    }
}

/// Accept step `t` of the sequence `obs`: the sequence must not be empty, and `t`
/// must name one of its steps. An empty sequence is reported first.
pub fn check_time_index(obs: &[Ternary], t: usize) -> (r: Result<(), QueryError>)
    ensures
        r is Ok <==> t < obs@.len(),
        obs@.len() == 0 ==> r == Err::<(), QueryError>(QueryError::EmptyObservations),
        0 < obs@.len() <= t ==> r == Err::<(), QueryError>(
            QueryError::TimeOutOfRange { t, len: obs@.len() as usize },
        ),
{
    check_observations(obs)?;
    if t >= obs.len() {
        Err(QueryError::TimeOutOfRange { t, len: obs.len() })
    } else {
        Ok(())
    }
}

} // verus!
