//! Sentiment of stored posts: picking a post at random and scoring its body.

use rand::seq::SliceRandom;
use vstd::prelude::*;

verus! {

/// The label for a sentiment score: `"positive"` above zero, `"negative"`
/// below zero and `"neutral"` at zero.
pub open spec fn label_of(score: int) -> Seq<char> {
    if score > 0 {
        "positive"@
    } else if score < 0 {
        "negative"@
    } else {
        "neutral"@
    }
}

/// Names a sentiment score by its sign.
pub fn sentiment_label(score: i64) -> (label: &'static str)
    ensures
        label@ == label_of(score as int),
        score > 0 ==> label@ == "positive"@,
        score < 0 ==> label@ == "negative"@,
        score == 0 ==> label@ == "neutral"@,
{
    if score > 0 {
        "positive"
    } else if score < 0 {
        "negative"
    } else {
        "neutral"
    }
}

/// The label with positive and negative exchanged.
pub open spec fn opposite_label(label: Seq<char>) -> Seq<char> {
    if label == "positive"@ {
        "negative"@
    } else if label == "negative"@ {
        "positive"@
    } else {
        label
    }
}

/// Negating a score exchanges the labels positive and negative and keeps
/// neutral.
pub proof fn law_negation_swaps_labels(score: int)
    ensures
        label_of(-score) == opposite_label(label_of(score)),
{
    reveal_strlit("positive");
    reveal_strlit("negative");
    reveal_strlit("neutral");
    assert("positive"@ != "negative"@) by {
        assert("positive"@[0] != "negative"@[0]);
    }
    assert("neutral"@ != "negative"@) by {
        assert("neutral"@.len() != "negative"@.len());
    }
    assert("neutral"@ != "positive"@) by {
        assert("neutral"@.len() != "positive"@.len());
    }
}

/// The AFINN sentiment score that `sentiment::analyze` gives a text: the sum
/// of the values of its positive words minus the sum of the magnitudes of its
/// negative words, after the crate's own tokenisation.
pub uninterp spec fn afinn_score(text: Seq<char>) -> int;

/// Calls `sentiment::analyze` on the text and returns the `score` field of the
/// result. The crate adds up whole AFINN word values, so that `f32` always holds
/// a whole number, which is handed back as an `i64`. The contract only names the
/// result: how the crate tokenises and which words it knows is not restated.
#[verifier::external_body]
fn analyze_score(text: &String) -> (score: i64)
    ensures
        score == afinn_score(text@),
{
    sentiment::analyze(text.clone()).score as i64
}

/// Calls `SliceRandom::choose` of `rand` with the thread-local generator and
/// copies the element it picks. Which element comes back depends on the
/// generator; the contract states only what holds of every outcome: nothing
/// comes back exactly when the slice is empty, and what comes back is one of
/// its elements. That the pick is uniform is not stated. (`thread_rng` panics
/// only when the operating system cannot seed it, whatever the argument.)
#[verifier::external_body]
fn choose_random(items: &[usize]) -> (choice: Option<usize>)
    ensures
        choice is None <==> items@.len() == 0,
        choice matches Some(c) ==> items@.contains(c),
{
    items.choose(&mut rand::thread_rng()).copied()
}

/// The post that was picked (its position among the stored posts) and the
/// sentiment score of its body.
#[derive(Clone, Copy, Debug, PartialEq, Eq, Structural)]
pub struct PostAnalysis {
    pub post: usize,
    pub score: i64,
}

/// What the analysis of a given choice is: nothing when no post was chosen,
/// otherwise the chosen post with the score of its body.
pub open spec fn analysis_of(bodies: Seq<Seq<char>>, choice: Option<usize>) -> Option<PostAnalysis> {
    match choice {
        None => None,
        Some(i) => Some(PostAnalysis { post: i, score: afinn_score(bodies[i as int]) as i64 }),
    }
}

/// The bodies of the posts, as sequences of characters.
pub open spec fn bodies_of(posts: Seq<String>) -> Seq<Seq<char>> {
    posts.map_values(|s: String| s@)
}

/// Scores the post that `choice` names, if it names one.
pub fn analysis_for(selftexts: &Vec<String>, choice: Option<usize>) -> (res: Option<PostAnalysis>)
    requires
        choice matches Some(i) ==> i < selftexts.len(),
    ensures
        res == analysis_of(bodies_of(selftexts@), choice),
        res matches Some(a) ==> a.score == afinn_score(selftexts@[a.post as int]@),
{
    match choice {
        None => None,
        Some(i) => {
            let score = analyze_score(&selftexts[i]);
            Some(PostAnalysis { post: i, score })
        },
    }
}

/// The positions `0..n`, in order.
pub fn positions(n: usize) -> (res: Vec<usize>)
    ensures
        res@ == Seq::new(n as nat, |k: int| k as usize),
{
    let mut res: Vec<usize> = Vec::new();
    for i in 0..n
        invariant
            res@ =~= Seq::new(i as nat, |k: int| k as usize),
    {
        res.push(i);
    }
    res
}

/// Picks one of the posts at random and scores its body. Nothing is picked
/// exactly when there are no posts.
pub fn analyze_random_post(selftexts: &Vec<String>) -> (res: Option<PostAnalysis>)
    ensures
        res is None <==> selftexts.len() == 0,
        res matches Some(a) ==> {
            &&& a.post < selftexts.len()
            &&& a.score == afinn_score(selftexts@[a.post as int]@)
        },
{
    let indices = positions(selftexts.len());
    let choice = choose_random(indices.as_slice());
    proof {
        if let Some(c) = choice {
            let k = choose|k: int| 0 <= k < indices@.len() && indices@[k] == c;
            assert(indices@[k] == k as usize);
        }
    }
    analysis_for(selftexts, choice)
}

/// Every score above zero is labelled positive, every score below zero
/// negative, and only zero is labelled neutral.
pub proof fn law_label_by_sign(score: int)
    ensures
        score > 0 ==> label_of(score) == "positive"@,
        score < 0 ==> label_of(score) == "negative"@,
        label_of(score) == "neutral"@ <==> score == 0,
{
    reveal_strlit("positive");
    reveal_strlit("negative");
    reveal_strlit("neutral");
    assert("neutral"@ != "negative"@) by {
        assert("neutral"@.len() != "negative"@.len());
    }
    assert("neutral"@ != "positive"@) by {
        assert("neutral"@.len() != "positive"@.len());
    }
}

/// The positions handed to the random choice are all the stored posts, each
/// once, in order.
pub proof fn law_positions_cover_every_post(n: usize, v: Vec<usize>)
    requires
        v@ == Seq::new(n as nat, |k: int| k as usize),
    ensures
        v@.len() == n,
        forall|i: usize| i < n ==> #[trigger] v@.contains(i),
        forall|i: int| 0 <= i < n ==> #[trigger] v@[i] == i,
{
    assert forall|i: usize| i < n implies #[trigger] v@.contains(i) by {
        assert(v@[i as int] == i);
    }
}

} // verus!
