//! Simulated latency for resilience testing: the backend can hold each
//! response back by a fixed delay, or by a randomized delay drawn from a
//! shifted-exponential distribution with a minimum and a target mean.
//! The command line chooses the policy; this module validates the choice
//! and turns a drawn sample into the delay to sleep, which never falls
//! below the configured minimum.

use vstd::prelude::*;

verus! {

/// How long the backend waits before answering.
#[derive(Clone, Copy, PartialEq, Eq, Structural, Debug)]
pub enum SimulatedLatency {
    /// Answer at once.
    Off,
    /// Hold every response back by this many milliseconds.
    Fixed(u64),
    /// Hold each response back by `min` plus an exponential sample whose
    /// mean is `mean - min`, so the delays average `mean` milliseconds
    /// and never fall below `min`.
    Random { min: u64, mean: u64 },
}

/// Why a latency command line is rejected.
#[derive(Clone, Copy, PartialEq, Eq, Structural, Debug)]
pub enum LatencyArgFault {
    /// A minimum was given without a mean latency to go with it.
    MinWithoutLatency,
    /// The minimum must be strictly less than the mean latency.
    MinNotBelowLatency,
}

impl LatencyArgFault {
    /// A short description, for the startup error message.
    pub fn describe(&self) -> (r: &'static str)
        ensures
            *self is MinWithoutLatency ==> r@ == "min requires latency"@,
            *self is MinNotBelowLatency ==> r@ == "min must be less than latency"@,
    {
        match self {
            LatencyArgFault::MinWithoutLatency => "min requires latency",
            LatencyArgFault::MinNotBelowLatency => "min must be less than latency",
        }
    }
}

/// Turn the two optional command-line arguments into a latency policy.
/// A latency alone is a fixed delay; a latency with a strictly smaller
/// minimum selects the randomized distribution; a minimum without a
/// latency, or one not strictly below it, is rejected before the backend
/// accepts any connection.
pub fn latency_policy(latency: Option<u64>, min: Option<u64>) -> (r: Result<
    SimulatedLatency,
    LatencyArgFault,
>)
    ensures
        (latency is None && min is None) ==> r == Result::<
            SimulatedLatency,
            LatencyArgFault,
        >::Ok(SimulatedLatency::Off),
        (latency matches Option::Some(l) ==> (min is None ==> r == Result::<
            SimulatedLatency,
            LatencyArgFault,
        >::Ok(SimulatedLatency::Fixed(l)))),
        (latency matches Option::Some(l) ==> (min matches Option::Some(m) ==> (m < l ==> r
            == Result::<SimulatedLatency, LatencyArgFault>::Ok(
            SimulatedLatency::Random { min: m, mean: l },
        )))),
        (latency matches Option::Some(l) ==> (min matches Option::Some(m) ==> (m >= l ==> r
            == Result::<SimulatedLatency, LatencyArgFault>::Err(
            LatencyArgFault::MinNotBelowLatency,
        )))),
        (latency is None && min is Some) ==> r == Result::<SimulatedLatency, LatencyArgFault>::Err(
            LatencyArgFault::MinWithoutLatency,
        ),
{
    match (latency, min) {
        (Some(l), None) => Ok(SimulatedLatency::Fixed(l)),
        (Some(l), Some(m)) => {
            if m >= l {
                Err(LatencyArgFault::MinNotBelowLatency)
            } else {
                Ok(SimulatedLatency::Random { min: m, mean: l })
            }
        },
        (None, None) => Ok(SimulatedLatency::Off),
        (None, Some(_)) => Err(LatencyArgFault::MinWithoutLatency),
    }
}

/// The delay to sleep before answering, in milliseconds.  `exp_sample` is
/// the exponential sample the caller drew, already scaled to a mean of
/// `mean - min` milliseconds; whatever was drawn, a randomized delay
/// never falls below the configured minimum.
pub fn delay_millis(policy: &SimulatedLatency, exp_sample: u64) -> (r: Option<u64>)
    ensures
        *policy is Off ==> r is None,
        (*policy matches SimulatedLatency::Fixed(l) ==> r == Option::Some(l)),
        (*policy matches SimulatedLatency::Random { min, mean } ==> (r matches Option::Some(v)
            && v == (if min + exp_sample <= u64::MAX {
            (min + exp_sample) as u64
        } else {
            u64::MAX
        }) && v >= min)),
{
    match policy {
        SimulatedLatency::Off => None,
        SimulatedLatency::Fixed(l) => Some(*l),
        SimulatedLatency::Random { min, mean: _ } => {
            if *min <= u64::MAX - exp_sample {
                Some(*min + exp_sample)
            } else {
                Some(u64::MAX)
            }
        },
    }
}

} // verus!
