//! Fetching new posts from Reddit with exponential backoff, and choosing
//! which of them to queue for storage.

use crate::text::chars_of;
use vstd::arithmetic::power::lemma_pow0;
use vstd::arithmetic::power2::lemma_pow2;
use vstd::arithmetic::power2::lemma_pow2_unfold;
use vstd::arithmetic::power2::pow2;
use vstd::prelude::*;

verus! {

/// The listing of the newest posts of the subreddit that is watched.
pub const REDDIT_NEW_POSTS_URL: &'static str = "https://www.reddit.com/r/kubernetes/new.json";

/// The `User-Agent` header sent with every request to Reddit.
pub const USER_AGENT: &'static str = "rust:reddit-k8s:v0.1 (by /u/hortonew)";

/// How one attempt to fetch the listing ended.
#[derive(Clone, Copy, Debug, PartialEq, Eq, Structural)]
pub enum AttemptOutcome {
    /// The response arrived and parsed as a listing.
    Parsed,
    /// The response arrived but did not parse as a listing.
    ParseFailed,
    /// The request itself failed.
    RequestFailed,
}

/// What to do after an attempt.
#[derive(Clone, Copy, Debug, PartialEq, Eq, Structural)]
pub enum FetchAction {
    /// Hand back the listing that was parsed.
    ReturnListing,
    /// Sleep this many seconds, then try again.
    RetryAfter(u64),
}

/// The delay that follows a failed attempt made after a delay of `secs`.
pub open spec fn next_delay(secs: int) -> int {
    2 * secs
}

/// The delay before the next retry, which doubles after every failed attempt.
#[derive(Clone, Copy, Debug, PartialEq, Eq, Structural)]
pub struct Backoff {
    pub secs: u64,
}

impl Backoff {
    /// The delay before the first retry: one second.
    pub fn new() -> (b: Backoff)
        ensures
            b.secs == 1,
    {
        Backoff { secs: 1 }
    }

    /// Whether another failure can still double the delay within `u64`.
    pub fn can_double(&self) -> (res: bool)
        ensures
            res == (2 * self.secs <= u64::MAX),
    {
        self.secs <= u64::MAX / 2
    }

    /// Decides what follows an attempt: a parsed listing is handed back and
    /// the delay stays; any failure sleeps for the current delay, which then
    /// doubles.
    pub fn after_attempt(&mut self, outcome: AttemptOutcome) -> (action: FetchAction)
        requires
            outcome != AttemptOutcome::Parsed ==> next_delay(old(self).secs as int) <= u64::MAX,
        ensures
            outcome == AttemptOutcome::Parsed ==> action == FetchAction::ReturnListing
                && final(self).secs == old(self).secs,
            outcome != AttemptOutcome::Parsed ==> action == FetchAction::RetryAfter(old(self).secs)
                && final(self).secs == next_delay(old(self).secs as int),
    {
        match outcome {
            AttemptOutcome::Parsed => FetchAction::ReturnListing,
            _ => {
                let slept: u64 = self.secs;
                self.secs = self.secs * 2;
                FetchAction::RetryAfter(slept)
            },
        }
    }
}

/// The sleeps of `n` failed attempts in a row, starting from a delay of `secs`,
/// as `after_attempt` orders them.
pub open spec fn sleeps_from(secs: int, n: nat) -> Seq<int>
    decreases n,
{
    if n == 0 {
        Seq::empty()
    } else {
        seq![secs] + sleeps_from(next_delay(secs), (n - 1) as nat)
    }
}

/// The total of a sequence of sleeps.
pub open spec fn total(s: Seq<int>) -> int
    decreases s.len(),
{
    if s.len() == 0 {
        0
    } else {
        s[0] + total(s.drop_first())
    }
}

/// The `i`-th retry after the first attempt waits `2^i` seconds, so after `n`
/// failures in a row the fetcher has slept `2^n - 1` seconds in all.
pub proof fn law_backoff_doubles(n: nat)
    ensures
        sleeps_from(1, n).len() == n,
        forall|i: int| 0 <= i < n ==> #[trigger] sleeps_from(1, n)[i] == pow2(i as nat),
        total(sleeps_from(1, n)) == pow2(n) - 1,
{
    lemma_sleeps_from(1, n);
}

proof fn lemma_sleeps_from(secs: int, n: nat)
    ensures
        sleeps_from(secs, n).len() == n,
        forall|i: int| 0 <= i < n ==> #[trigger] sleeps_from(secs, n)[i] == secs * pow2(i as nat),
        total(sleeps_from(secs, n)) == secs * (pow2(n) - 1),
    decreases n,
{
    if n > 0 {
        let m = (n - 1) as nat;
        lemma_sleeps_from(2 * secs, m);
        let s = sleeps_from(secs, n);
        let rest = sleeps_from(2 * secs, m);
        lemma_pow2_unfold(n);
        assert(s.drop_first() =~= rest);
        assert forall|i: int| 0 <= i < n implies #[trigger] s[i] == secs * pow2(i as nat) by {
            if i > 0 {
                assert(s[i] == rest[i - 1]);
                lemma_pow2_unfold(i as nat);
                assert(pow2(i as nat) == 2 * pow2((i - 1) as nat));
                assert(2 * secs * pow2((i - 1) as nat) == secs * (2 * pow2((i - 1) as nat)))
                    by (nonlinear_arith);
            } else {
                lemma_pow2(0);
                lemma_pow0(2);
            }
        }
        assert(total(s) == secs + total(rest));
        assert(2 * secs * (pow2(m) - 1) + secs == secs * (2 * pow2(m) - 1)) by (nonlinear_arith);
        assert(pow2(n) == 2 * pow2(m));
    } else {
        lemma_pow2(n);
        lemma_pow0(2);
        assert(secs * (pow2(n) - 1) == 0) by (nonlinear_arith)
            requires
                pow2(n) == 1,
        ;
    }
}

/// A post is queued when its body is not empty and holds a question mark.
pub open spec fn asks_question(body: Seq<char>) -> bool {
    body.len() > 0 && body.contains('?')
}

/// Whether a post with this body is queued for storage.
pub fn is_question(body: &str) -> (res: bool)
    ensures
        res == asks_question(body@),
        res == exists|k: int| 0 <= k < body@.len() && body@[k] == '?',
{
    let cs = chars_of(body);
    let mut i: usize = 0;
    while i < cs.len()
        invariant
            i <= cs@.len(),
            cs@ == body@,
            forall|k: int| 0 <= k < i ==> cs@[k] != '?',
        decreases cs.len() - i,
    {
        if cs[i] == '?' {
            assert(body@[i as int] == '?');
            return true;
        }
        i += 1;
    }
    false
}

/// The positions of the posts to queue, in listing order: exactly those whose
/// body asks a question.
pub fn posts_to_publish(bodies: &Vec<String>) -> (res: Vec<usize>)
    ensures
        forall|j: int| 0 <= j < res.len() ==> res@[j] < bodies.len(),
        forall|j: int, l: int| 0 <= j < l < res.len() ==> res@[j] < res@[l],
        forall|i: int|
            0 <= i < bodies.len() ==> (asks_question(#[trigger] bodies@[i]@) <==> res@.contains(
                i as usize,
            )),
{
    let mut res: Vec<usize> = Vec::new();
    for i in 0..bodies.len()
        invariant
            forall|j: int| 0 <= j < res.len() ==> res@[j] < i,
            forall|j: int, l: int| 0 <= j < l < res.len() ==> res@[j] < res@[l],
            forall|k: int|
                0 <= k < i ==> (asks_question(#[trigger] bodies@[k]@) <==> res@.contains(
                    k as usize,
                )),
    {
        let ghost before = res@;
        if is_question(bodies[i].as_str()) {
            res.push(i);
        }
        assert forall|k: int| 0 <= k < i + 1 implies (asks_question(#[trigger] bodies@[k]@)
            <==> res@.contains(k as usize)) by {
            if k < i {
                if before.contains(k as usize) {
                    let j = choose|j: int| 0 <= j < before.len() && before[j] == k as usize;
                    assert(res@[j] == k as usize);
                }
                if res@.contains(k as usize) {
                    let j = choose|j: int| 0 <= j < res@.len() && res@[j] == k as usize;
                    if j < before.len() {
                        assert(before[j] == k as usize);
                    }
                }
            } else {
                if res@.contains(k as usize) {
                    let j = choose|j: int| 0 <= j < res@.len() && res@[j] == k as usize;
                    if j < before.len() {
                        assert(before[j] < i);
                    }
                }
                if asks_question(bodies@[k]@) {
                    assert(res@[res@.len() - 1] == i);
                }
            }
        }
    }
    res
}

/// A body asks a question exactly when a `?` stands at some position of it,
/// wherever that is.
pub proof fn law_question_mark_anywhere(body: Seq<char>)
    ensures
        asks_question(body) == exists|k: int| 0 <= k < body.len() && body[k] == '?',
        forall|k: int| 0 <= k < body.len() && body[k] == '?' ==> asks_question(body),
{
    assert forall|k: int| 0 <= k < body.len() && body[k] == '?' implies asks_question(body) by {
        assert(body.contains(body[k]));
    }
}

} // verus!
