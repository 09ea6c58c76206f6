use discord_client::rate_limit::{RateLimiter, RouteLimiters, WaitStep};
use discord_client::retry::{AttemptOutcome, RequestRetry, RetryAction};

#[test]
fn limiter_waits_until_retry_instant() {
    let mut l = RateLimiter::new();
    assert_eq!(l.wait_step(5), WaitStep::Proceed);
    l.update(100, 50);
    assert_eq!(l.retry_until, Some(150));
    assert_eq!(l.wait_step(120), WaitStep::Sleep(30));
    assert_eq!(l.retry_until, Some(150));
    assert_eq!(l.wait_step(150), WaitStep::Proceed);
    assert_eq!(l.retry_until, None);
    assert_eq!(l.wait_step(151), WaitStep::Proceed);
}

#[test]
fn route_limiters_share_profile_bucket() {
    let mut r = RouteLimiters::new();
    let a = r.limiter_for("users/123/profile");
    let b = r.limiter_for("users/456/profile");
    let c = r.limiter_for("users/123");
    let d = r.limiter_for("users/123");
    assert_eq!(a, b);
    assert_ne!(a, c);
    assert_eq!(c, d);
    assert_eq!(r.len(), 2);
    let e = r.limiter_for_key("users/789/profile");
    assert_ne!(e, a);
    assert_eq!(r.len(), 3);
}

#[test]
fn retry_decisions() {
    let mut r = RequestRetry::new();
    assert_eq!(r.next_action(AttemptOutcome::Finished, 0, "x"), RetryAction::Return);
    assert_eq!(
        r.next_action(
            AttemptOutcome::RateLimited { retry_after: 7, global: true },
            0,
            "x"
        ),
        RetryAction::UpdateGlobalAndRetry(7)
    );
    assert_eq!(
        r.next_action(
            AttemptOutcome::RateLimited { retry_after: 8, global: false },
            0,
            "x"
        ),
        RetryAction::UpdateRouteAndRetry(8)
    );
    assert_eq!(r.indexing_deadline, None);
}

#[test]
fn indexing_retries_stop_at_the_deadline() {
    let second = 1_000_000_000u64;
    let mut r = RequestRetry::new();
    let path = "guilds/1/messages/search";
    assert_eq!(
        r.next_action(AttemptOutcome::SearchIndexing { retry_after: second }, 10, path),
        RetryAction::SleepAndRetry(second)
    );
    assert_eq!(r.indexing_deadline, Some(10 + 30 * second));
    assert_eq!(
        r.next_action(
            AttemptOutcome::SearchIndexing { retry_after: second },
            10 + 29 * second,
            path
        ),
        RetryAction::GiveUp(
            "Message search indexing did not finish within 30 seconds [guilds/1/messages/search]"
                .to_string()
        )
    );
    assert_eq!(r.indexing_deadline, Some(10 + 30 * second));
    assert!(matches!(
        r.next_action(AttemptOutcome::SearchIndexing { retry_after: 1 }, 40 * second, path),
        RetryAction::GiveUp(_)
    ));
}

#[test]
fn late_clock_needs_room_only_for_a_new_deadline() {
    let mut r = RequestRetry::new();
    assert_eq!(r.next_action(AttemptOutcome::Finished, u64::MAX, "x"), RetryAction::Return);
    assert_eq!(
        r.next_action(
            AttemptOutcome::RateLimited { retry_after: 1, global: false },
            u64::MAX,
            "x"
        ),
        RetryAction::UpdateRouteAndRetry(1)
    );
    let mut r = RequestRetry { indexing_deadline: Some(10) };
    assert_eq!(
        r.next_action(AttemptOutcome::SearchIndexing { retry_after: 1 }, u64::MAX, "p"),
        RetryAction::GiveUp(
            "Message search indexing did not finish within 30 seconds [p]".to_string()
        )
    );
    assert_eq!(r.indexing_deadline, Some(10));
}
