use iamdreamingof_generator::error::Error;
use iamdreamingof_generator::retry::{
    RetryDecision, RetryOutcome, RetryPolicy, RetryWrapper, BUILD_RETRY_DELAY_SECS,
    MAX_BUILD_ATTEMPTS,
};

#[test]
fn test_challenge_policy_is_three_attempts_two_seconds_apart() {
    let policy = RetryPolicy::for_challenges();
    assert_eq!(policy.max_attempts, 3);
    assert_eq!(policy.delay_secs, 2);
    assert_eq!(MAX_BUILD_ATTEMPTS, 3);
    assert_eq!(BUILD_RETRY_DELAY_SECS, 2);
}

#[test]
fn test_after_failure_retries_until_the_limit() {
    let policy = RetryPolicy::for_challenges();
    assert_eq!(
        policy.after_failure(1),
        RetryDecision::Retry { delay_secs: 2 }
    );
    assert_eq!(
        policy.after_failure(2),
        RetryDecision::Retry { delay_secs: 2 }
    );
    assert_eq!(policy.after_failure(3), RetryDecision::GiveUp);
    assert_eq!(policy.after_failure(4), RetryDecision::GiveUp);
}

#[test]
fn test_policy_without_retries_gives_up_at_once() {
    let once = RetryPolicy {
        max_attempts: 1,
        delay_secs: 5,
    };
    assert_eq!(once.after_failure(1), RetryDecision::GiveUp);
    let none = RetryPolicy {
        max_attempts: 0,
        delay_secs: 5,
    };
    assert_eq!(none.after_failure(1), RetryDecision::GiveUp);
}

#[test]
fn test_wrapper_hands_success_through() {
    let mut wrapper = RetryWrapper::new(RetryPolicy::for_challenges(), "easy".to_string());
    assert_eq!(wrapper.on_result(Ok(42u8)), RetryOutcome::Done(42u8));
    assert_eq!(wrapper.failed_attempts(), 0);
}

#[test]
fn test_wrapper_fails_twice_then_succeeds() {
    let mut wrapper = RetryWrapper::new(RetryPolicy::for_challenges(), "easy".to_string());
    assert_eq!(
        wrapper.on_result::<u8>(Err(Error::AiProvider("1".to_string()))),
        RetryOutcome::RetryAfter { seconds: 2 }
    );
    assert_eq!(
        wrapper.on_result::<u8>(Err(Error::AiProvider("2".to_string()))),
        RetryOutcome::RetryAfter { seconds: 2 }
    );
    assert_eq!(wrapper.on_result(Ok(7u8)), RetryOutcome::Done(7u8));
    assert_eq!(wrapper.failed_attempts(), 2);
}

#[test]
fn test_wrapper_surfaces_the_last_error_with_the_label() {
    let mut wrapper = RetryWrapper::new(RetryPolicy::for_challenges(), "dreaming".to_string());
    wrapper.on_result::<u8>(Err(Error::AiProvider("first".to_string())));
    wrapper.on_result::<u8>(Err(Error::S3("second".to_string())));
    let last = wrapper.on_result::<u8>(Err(Error::Image("third".to_string())));
    assert_eq!(
        last,
        RetryOutcome::Failed(Error::Challenge {
            difficulty: "dreaming".to_string(),
            cause: Box::new(Error::Image("third".to_string())),
        })
    );
    assert_eq!(wrapper.failed_attempts(), 3);
}
