use vstd::prelude::*;
use crate::error::Error;

verus! {

/// Whether some timestamp in `timestamps` is at or past `time_limit`.
pub open spec fn reaches_limit(time_limit: u64, timestamps: Seq<u64>) -> bool {
    exists|i: int| 0 <= i < timestamps.len() && time_limit <= #[trigger] timestamps[i]
}

/// What the time stage decides: nothing to check without a limit; with one,
/// `CurrentTimeNotGiven` for no header, success if some header reaches the
/// limit, and `TimeLimitNotReached` otherwise.
pub open spec fn time_outcome(time_limit: Option<u64>, timestamps: Seq<u64>) -> Result<(), Error> {
    match time_limit {
        None => Ok(()),
        Some(limit) => if timestamps.len() == 0 {
            Err(Error::CurrentTimeNotGiven)
        } else if reaches_limit(limit, timestamps) {
            Ok(())
        } else {
            Err(Error::TimeLimitNotReached)
        },
    }
}

/// Returns whether some header timestamp is at or past the time limit.
/// The search stops at the first such timestamp.
pub fn has_passed_time_limit(time_limit: u64, timestamps: &[u64]) -> (r: bool)
    ensures
        r == reaches_limit(time_limit, timestamps@),
{
    let n: usize = timestamps.len();
    let mut i: usize = 0;
    while i < n
        invariant
            i <= n == timestamps@.len(),
            forall|j: int| 0 <= j < i ==> #[trigger] timestamps@[j] < time_limit,
        decreases n - i,
    {
        if time_limit <= timestamps[i] {
            return true;
        }
        i = i + 1;
    }
    false
}

/// The time stage: passes when no limit is set, and otherwise needs at least
/// one header timestamp at or past the limit.
pub fn check_time_limit(time_limit: Option<u64>, timestamps: &[u64]) -> (r: Result<(), Error>)
    ensures
        r == time_outcome(time_limit, timestamps@),
{
    match time_limit {
        None => Ok(()),
        Some(limit) => {
            if timestamps.len() == 0 {
                Err(Error::CurrentTimeNotGiven)
            } else if has_passed_time_limit(limit, timestamps) {
                Ok(())
            } else {
                Err(Error::TimeLimitNotReached)
            }
        },
    }
}

/// The time stage passes exactly when no limit is set or some header reaches
/// it; without headers a set limit fails with `CurrentTimeNotGiven`, and with
/// headers that all fall short of it, with `TimeLimitNotReached`.
pub proof fn lemma_time_gate_existential(time_limit: u64, timestamps: Seq<u64>)
    ensures
        time_outcome(Some(time_limit), timestamps) is Ok <==> exists|i: int|
            0 <= i < timestamps.len() && time_limit <= #[trigger] timestamps[i],
        timestamps.len() == 0 ==> time_outcome(Some(time_limit), timestamps) == Err::<(), Error>(
            Error::CurrentTimeNotGiven,
        ),
        timestamps.len() > 0 && (forall|i: int|
            0 <= i < timestamps.len() ==> #[trigger] timestamps[i] < time_limit) ==> time_outcome(
            Some(time_limit),
            timestamps,
        ) == Err::<(), Error>(Error::TimeLimitNotReached),
        time_outcome(None, timestamps) == Ok::<(), Error>(()),
{
}

} // verus!
