use reddit_scraper::analysis::{
    analysis_for, analyze_random_post, positions, sentiment_label, PostAnalysis,
};

#[test]
fn test_sentiment_label() {
    assert_eq!(
        sentiment_label(1),
        "positive",
        "Expected 'positive' label for positive score"
    );
    assert_eq!(
        sentiment_label(-1),
        "negative",
        "Expected 'negative' label for negative score"
    );
    assert_eq!(
        sentiment_label(0),
        "neutral",
        "Expected 'neutral' label for neutral score"
    );
}

#[test]
fn label_follows_the_sign_far_from_zero() {
    assert_eq!(sentiment_label(i64::MAX), "positive");
    assert_eq!(sentiment_label(i64::MIN), "negative");
    assert_eq!(sentiment_label(17), "positive");
    assert_eq!(sentiment_label(-3), "negative");
}

#[test]
fn no_posts_give_no_analysis() {
    assert_eq!(analyze_random_post(&Vec::new()), None);
}

#[test]
fn a_positive_post_scores_above_zero() {
    let posts = vec!["This is a positive post.".to_string()];
    let analysis = analyze_random_post(&posts);
    assert_eq!(analysis, Some(PostAnalysis { post: 0, score: 2 }));
    assert_eq!(sentiment_label(analysis.unwrap().score), "positive");
}

#[test]
fn a_negative_post_scores_below_zero() {
    let posts = vec!["This is a negative post.".to_string()];
    let analysis = analyze_random_post(&posts);
    assert_eq!(analysis, Some(PostAnalysis { post: 0, score: -2 }));
    assert_eq!(sentiment_label(analysis.unwrap().score), "negative");
}

#[test]
fn the_chosen_post_is_one_of_the_stored_posts() {
    let posts = vec![
        "This is a positive post.".to_string(),
        "This is a negative post.".to_string(),
    ];
    for _ in 0..20 {
        let analysis = analyze_random_post(&posts).expect("Expected a post and sentiment score");
        assert!(analysis.post < posts.len());
        assert!(analysis.score != 0, "Sentiment score should not be neutral");
        let expected = if analysis.post == 0 { 2 } else { -2 };
        assert_eq!(analysis.score, expected);
    }
}

#[test]
fn analysis_of_a_given_choice() {
    let posts = vec![
        "I do not like jam tarts".to_string(),
        "nothing to see here".to_string(),
    ];
    assert_eq!(analysis_for(&posts, None), None);
    assert_eq!(analysis_for(&posts, Some(0)), Some(PostAnalysis { post: 0, score: 2 }));
    assert_eq!(analysis_for(&posts, Some(1)), Some(PostAnalysis { post: 1, score: 0 }));
}

#[test]
fn negating_a_score_swaps_positive_and_negative() {
    for x in [1i64, 2, 5, 100, i64::MAX] {
        assert_eq!(sentiment_label(x), "positive");
        assert_eq!(sentiment_label(-x), "negative");
    }
    assert_eq!(sentiment_label(-0), sentiment_label(0));
}

#[test]
fn positions_count_up_from_zero() {
    assert_eq!(positions(0), Vec::<usize>::new());
    assert_eq!(positions(4), vec![0, 1, 2, 3]);
}
