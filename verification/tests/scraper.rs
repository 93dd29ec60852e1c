use reddit_scraper::scraper::{
    is_question, posts_to_publish, AttemptOutcome, Backoff, FetchAction, REDDIT_NEW_POSTS_URL,
    USER_AGENT,
};

#[test]
fn backoff_doubles_after_each_failure() {
    let mut b = Backoff::new();
    assert_eq!(b.after_attempt(AttemptOutcome::RequestFailed), FetchAction::RetryAfter(1));
    assert_eq!(b.after_attempt(AttemptOutcome::ParseFailed), FetchAction::RetryAfter(2));
    assert_eq!(b.after_attempt(AttemptOutcome::RequestFailed), FetchAction::RetryAfter(4));
    assert_eq!(b.after_attempt(AttemptOutcome::RequestFailed), FetchAction::RetryAfter(8));
    assert_eq!(b.secs, 16);
    assert_eq!(b.after_attempt(AttemptOutcome::Parsed), FetchAction::ReturnListing);
    assert_eq!(b.secs, 16);
}

#[test]
fn ten_failures_sleep_two_to_the_ten_minus_one_seconds() {
    let mut b = Backoff::new();
    let mut total = 0u64;
    for _ in 0..10 {
        match b.after_attempt(AttemptOutcome::RequestFailed) {
            FetchAction::RetryAfter(s) => total += s,
            FetchAction::ReturnListing => panic!("a failure never returns"),
        }
    }
    assert_eq!(total, 1023);
}

#[test]
fn backoff_stops_doubling_at_the_edge_of_u64() {
    let b = Backoff { secs: 1 << 62 };
    assert!(b.can_double());
    let b = Backoff { secs: 1 << 63 };
    assert!(!b.can_double());
}

#[test]
fn request_settings() {
    assert_eq!(REDDIT_NEW_POSTS_URL, "https://www.reddit.com/r/kubernetes/new.json");
    assert_eq!(USER_AGENT, "rust:reddit-k8s:v0.1 (by /u/hortonew)");
}

#[test]
fn only_questions_are_published() {
    assert!(is_question("How do I scale a deployment?"));
    assert!(is_question("?"));
    assert!(is_question("Ünïcode fïrst? then more"));
    assert!(!is_question(""));
    assert!(!is_question("No question here."));
}

#[test]
fn published_positions_keep_listing_order() {
    let bodies = vec![
        "Why is my pod pending?".to_string(),
        "".to_string(),
        "Release notes.".to_string(),
        "Helm or kustomize?".to_string(),
    ];
    assert_eq!(posts_to_publish(&bodies), vec![0, 3]);
    assert_eq!(posts_to_publish(&Vec::new()), Vec::<usize>::new());
}
