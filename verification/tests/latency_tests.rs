//! The latency harness: argument validation, the lower bound on every
//! randomized delay, and the empirical mean of the shifted-exponential
//! distribution.

use physics_bridge::latency::{delay_millis, latency_policy, LatencyArgFault, SimulatedLatency};
use rand::rngs::StdRng;
use rand::{RngExt, SeedableRng};

#[test]
fn policy_parsing() {
    assert_eq!(latency_policy(None, None), Ok(SimulatedLatency::Off));
    assert_eq!(latency_policy(Some(50), None), Ok(SimulatedLatency::Fixed(50)));
    assert_eq!(
        latency_policy(Some(50), Some(10)),
        Ok(SimulatedLatency::Random { min: 10, mean: 50 })
    );
    assert_eq!(latency_policy(Some(50), Some(50)), Err(LatencyArgFault::MinNotBelowLatency));
    assert_eq!(latency_policy(Some(50), Some(80)), Err(LatencyArgFault::MinNotBelowLatency));
    assert_eq!(latency_policy(None, Some(10)), Err(LatencyArgFault::MinWithoutLatency));
    assert_eq!(LatencyArgFault::MinNotBelowLatency.describe(), "min must be less than latency");
    assert_eq!(LatencyArgFault::MinWithoutLatency.describe(), "min requires latency");
}

#[test]
fn fixed_and_off_delays() {
    assert_eq!(delay_millis(&SimulatedLatency::Off, 123), None);
    assert_eq!(delay_millis(&SimulatedLatency::Fixed(50), 123), Some(50));
}

#[test]
fn random_delay_saturates_instead_of_wrapping() {
    let policy = SimulatedLatency::Random { min: 10, mean: 50 };
    assert_eq!(delay_millis(&policy, u64::MAX), Some(u64::MAX));
}

/// With `--latency 50 --min 10`, a thousand sampled delays all fall at or
/// above 10 ms and their empirical mean lands near 50 ms.
#[test]
fn thousand_sampled_delays_respect_min_and_mean() {
    let policy = match latency_policy(Some(50), Some(10)) {
        Ok(p) => p,
        Err(_) => panic!("10 < 50 is a valid latency pair"),
    };
    let (min, mean) = match policy {
        SimulatedLatency::Random { min, mean } => (min, mean),
        _ => panic!("a latency with a smaller min selects the randomized policy"),
    };
    let mut rng = StdRng::seed_from_u64(0x1a7e_c0de);
    let mut total: u64 = 0;
    let samples = 1000u64;
    for _ in 0..samples {
        // A shifted-exponential draw: min plus an exponential sample with
        // mean `mean - min`.
        let u: f64 = rng.random();
        let u = if u > 0.0 { u } else { f64::MIN_POSITIVE };
        let expovariate = -u.ln() * (mean - min) as f64;
        let delay = delay_millis(&policy, expovariate as u64).unwrap();
        assert!(delay >= min);
        total += delay;
    }
    let empirical_mean = total as f64 / samples as f64;
    // The exponential part has a standard deviation of 40 ms, so the mean
    // of 1000 draws stays within a few ms of 50 with this seed.
    assert!((empirical_mean - mean as f64).abs() < 5.0, "mean drifted to {}", empirical_mean);
}
