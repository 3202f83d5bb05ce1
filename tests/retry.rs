use std::cell::Cell;

use newsapi_rs::retry::retry_delay;
use newsapi_rs::{RetryDecision, RetryState, RetryStrategy};

/// Runs `operation` under the policy, as a transport loop would, without sleeping.
fn run<T, E>(
    strategy: RetryStrategy,
    max_retries: usize,
    mut operation: impl FnMut() -> Result<T, E>,
) -> Result<T, E> {
    let mut state = RetryState::new(strategy, max_retries);
    loop {
        match operation() {
            Ok(v) => return Ok(v),
            Err(e) => match state.on_failure() {
                RetryDecision::Retry { .. } => {}
                RetryDecision::GiveUp => return Err(e),
            },
        }
    }
}

#[test]
fn test_retry_none() {
    let counter = Cell::new(0);
    let result = run(RetryStrategy::NoRetry, 3, || {
        counter.set(counter.get() + 1);
        Ok::<_, ()>(counter.get())
    });

    assert_eq!(result.unwrap(), 1);
    assert_eq!(counter.get(), 1);
}

#[test]
fn test_retry_constant() {
    let counter = Cell::new(0);
    let result = run(RetryStrategy::Constant(1), 3, || {
        counter.set(counter.get() + 1);
        if counter.get() < 3 {
            Err("error")
        } else {
            Ok(counter.get())
        }
    });

    assert_eq!(result.unwrap(), 3);
    assert_eq!(counter.get(), 3);
}

#[test]
fn test_retry_exhausted() {
    let counter = Cell::new(0);
    let result = run(RetryStrategy::Constant(1), 2, || {
        counter.set(counter.get() + 1);
        Err::<i32, _>("always fails")
    });

    assert!(result.is_err());
    assert_eq!(counter.get(), 3); // Initial attempt + 2 retries
}

#[test]
fn test_retry_blocking_function() {
    let mut counter = 0;
    let result = run(RetryStrategy::Constant(1), 2, || {
        counter += 1;
        if counter < 2 {
            Err("error")
        } else {
            Ok(counter)
        }
    });

    assert_eq!(result.unwrap(), 2);
    assert_eq!(counter, 2);
}

#[test]
fn no_retry_runs_once_whatever_the_bound() {
    for max in [0, 1, 5, 1000] {
        let counter = Cell::new(0);
        let result = run(RetryStrategy::NoRetry, max, || {
            counter.set(counter.get() + 1);
            Err::<(), _>("fails")
        });
        assert_eq!(result, Err("fails"));
        assert_eq!(counter.get(), 1);
    }
}

#[test]
fn exhaustion_surfaces_the_last_error() {
    let counter = Cell::new(0);
    let result = run(RetryStrategy::Linear(5), 4, || {
        counter.set(counter.get() + 1);
        Err::<(), _>(counter.get())
    });
    assert_eq!(result, Err(5));
}

#[test]
fn delays_follow_the_strategy() {
    let mut state = RetryState::new(RetryStrategy::Exponential(100), 3);
    assert_eq!(state.on_failure(), RetryDecision::Retry { delay_ms: 100 });
    assert_eq!(state.on_failure(), RetryDecision::Retry { delay_ms: 200 });
    assert_eq!(state.on_failure(), RetryDecision::Retry { delay_ms: 400 });
    assert_eq!(state.on_failure(), RetryDecision::GiveUp);
    assert_eq!(state.retries_done(), 3);

    let mut state = RetryState::new(RetryStrategy::Linear(10), 2);
    assert_eq!(state.on_failure(), RetryDecision::Retry { delay_ms: 10 });
    assert_eq!(state.on_failure(), RetryDecision::Retry { delay_ms: 20 });
    assert_eq!(state.on_failure(), RetryDecision::GiveUp);

    let mut state = RetryState::new(RetryStrategy::Constant(7), 0);
    assert_eq!(state.on_failure(), RetryDecision::GiveUp);
}

#[test]
fn delays_saturate() {
    assert_eq!(retry_delay(RetryStrategy::Exponential(1), 63), 1u64 << 63);
    assert_eq!(retry_delay(RetryStrategy::Exponential(1), 64), u64::MAX);
    assert_eq!(retry_delay(RetryStrategy::Exponential(0), 500), 0);
    assert_eq!(retry_delay(RetryStrategy::Linear(u64::MAX), 1), u64::MAX);
    assert_eq!(retry_delay(RetryStrategy::Linear(3), 4), 15);
    assert_eq!(retry_delay(RetryStrategy::NoRetry, 4), 0);
    assert_eq!(RetryStrategy::default(), RetryStrategy::NoRetry);
}
