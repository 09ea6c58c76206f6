//! Rate limiting of REST requests. A limiter remembers until when requests
//! must wait; the registry hands out one limiter per rate-limit bucket, so
//! that every request of a bucket waits on the same limiter.
//!
//! Times are nanoseconds on a monotonic clock chosen by the caller.

use vstd::prelude::*;
use crate::routes::{rate_limit_route, route_bucket};
use crate::text::{chars_of, copy_str, vec_eq};

verus! {

/// What a request does when it consults a limiter.
#[derive(Clone, Copy, Debug, PartialEq, Eq, Structural)]
pub enum WaitStep {
    /// Go ahead.
    Proceed,
    /// Sleep this many nanoseconds (or until the limiter is updated), then
    /// consult the limiter again.
    Sleep(u64),
}

/// The state of one limiter: the instant before which requests wait.
#[derive(Clone, Copy, Debug, PartialEq, Eq, Structural)]
pub struct RateLimiter {
    pub retry_until: Option<u64>,
}

/// What consulting a limiter at `now` gives: the step, and the limiter after.
pub open spec fn wait_spec(retry_until: Option<u64>, now: u64) -> (WaitStep, Option<u64>) {
    match retry_until {
        None => (WaitStep::Proceed, None),
        Some(t) => if t > now {
            (WaitStep::Sleep((t - now) as u64), Some(t))
        } else {
            (WaitStep::Proceed, None)
        },
    }
}

impl RateLimiter {
    /// A limiter that lets requests through.
    pub fn new() -> (r: RateLimiter)
        ensures
            r.retry_until is None,
    {
        RateLimiter { retry_until: None }
    }

    /// Consults the limiter at `now`: a request waits while the retry
    /// instant lies ahead, and an expired instant is forgotten.
    pub fn wait_step(&mut self, now: u64) -> (step: WaitStep)
        ensures
            (step, final(self).retry_until) == wait_spec(old(self).retry_until, now),
    {
        match self.retry_until {
            None => WaitStep::Proceed,
            Some(t) => {
                if t > now {
                    WaitStep::Sleep(t - now)
                } else {
                    self.retry_until = None;
                    WaitStep::Proceed
                }
            },
        }
    }

    /// Records at `now` that requests must wait `retry_after` nanoseconds.
    pub fn update(&mut self, now: u64, retry_after: u64)
        requires
            now + retry_after <= u64::MAX,
        ensures
            final(self).retry_until == Some((now + retry_after) as u64),
    {
        self.retry_until = Some(now + retry_after);
    }
}

/// After an update, a request waits exactly until the retry instant, and
/// goes ahead from then on, forgetting the instant.
pub proof fn law_update_then_wait(now: u64, retry_after: u64, later: u64)
    requires
        now + retry_after <= u64::MAX,
    ensures
        ({
            let until = (now + retry_after) as u64;
            let (step, after) = wait_spec(Some(until), later);
            &&& later < until ==> step == WaitStep::Sleep((until - later) as u64) && after
                == Some(until)
            &&& later >= until ==> step == WaitStep::Proceed && after is None
        }),
{
}

/// A limiter that let a request through lets the next one through too.
pub proof fn law_proceed_is_stable(retry_until: Option<u64>, now: u64, later: u64)
    requires
        wait_spec(retry_until, now).0 == WaitStep::Proceed,
    ensures
        wait_spec(wait_spec(retry_until, now).1, later) == (WaitStep::Proceed, None::<u64>),
{
}

/// Whether no bucket occurs twice.
pub open spec fn distinct_buckets(buckets: Seq<Seq<char>>) -> bool {
    forall|i: int, j: int|
        0 <= i < buckets.len() && 0 <= j < buckets.len() && i != j ==> buckets[i] != buckets[j]
}

/// The position of `b` in `buckets`, searching from the end; -1 if absent.
pub open spec fn bucket_position(buckets: Seq<Seq<char>>, b: Seq<char>) -> int
    decreases buckets.len(),
{
    if buckets.len() == 0 {
        -1
    } else if buckets.last() == b {
        buckets.len() - 1
    } else {
        bucket_position(buckets.drop_last(), b)
    }
}

/// The buckets after a lookup of the bucket `b`, and the limiter it gets.
pub open spec fn lookup_key_spec(buckets: Seq<Seq<char>>, b: Seq<char>) -> (Seq<Seq<char>>, int) {
    let p = bucket_position(buckets, b);
    if p >= 0 {
        (buckets, p)
    } else {
        (buckets.push(b), buckets.len() as int)
    }
}

/// The buckets after a lookup of `route`, and the limiter it gets.
pub open spec fn lookup_spec(buckets: Seq<Seq<char>>, route: Seq<char>) -> (Seq<Seq<char>>, int) {
    lookup_key_spec(buckets, route_bucket(route))
}

/// `bucket_position` finds `b` exactly when `b` is there.
pub proof fn lemma_bucket_position(buckets: Seq<Seq<char>>, b: Seq<char>)
    ensures
        -1 <= bucket_position(buckets, b) < buckets.len(),
        bucket_position(buckets, b) >= 0 ==> buckets[bucket_position(buckets, b)] == b,
        bucket_position(buckets, b) < 0 ==> !buckets.contains(b),
    decreases buckets.len(),
{
    if buckets.len() > 0 && buckets.last() != b {
        lemma_bucket_position(buckets.drop_last(), b);
        if bucket_position(buckets, b) < 0 {
            assert forall|k: int| 0 <= k < buckets.len() implies buckets[k] != b by {
                if k < buckets.len() - 1 {
                    assert(buckets.drop_last()[k] == buckets[k]);
                }
            }
        }
    }
}

/// The limiters of a client, one per rate-limit bucket; the limiter of the
/// bucket at position `i` is the caller's limiter number `i`.
pub struct RouteLimiters {
    buckets: Vec<String>,
}

impl View for RouteLimiters {
    type V = Seq<Seq<char>>;

    closed spec fn view(&self) -> Seq<Seq<char>> {
        self.buckets@.map_values(|s: String| s@)
    }
}

impl RouteLimiters {
    /// No bucket occurs twice.
    pub open spec fn wf(&self) -> bool {
        distinct_buckets(self@)
    }

    /// A registry with no buckets yet.
    pub fn new() -> (r: RouteLimiters)
        ensures
            r.wf(),
            r@ == Seq::<Seq<char>>::empty(),
    {
        let r = RouteLimiters { buckets: Vec::new() };
        assert(r@ =~= Seq::<Seq<char>>::empty());
        r
    }

    /// The number of buckets known.
    pub fn len(&self) -> (n: usize)
        ensures
            n == self@.len(),
    {
        self.buckets.len()
    }

    /// The limiter number for `route`: the one of its bucket, which is
    /// added when the bucket is new.
    pub fn limiter_for(&mut self, route: &str) -> (i: usize)
        requires
            old(self).wf(),
        ensures
            final(self).wf(),
            (final(self)@, i as int) == lookup_spec(old(self)@, route@),
            i < final(self)@.len(),
            final(self)@[i as int] == route_bucket(route@),
    {
        let bucket = rate_limit_route(route);
        self.limiter_for_key(bucket)
    }

    /// The limiter number for the bucket `key` itself, which is added when
    /// it is new (a client without a session keys its limiters by route).
    pub fn limiter_for_key(&mut self, key: &str) -> (i: usize)
        requires
            old(self).wf(),
        ensures
            final(self).wf(),
            (final(self)@, i as int) == lookup_key_spec(old(self)@, key@),
            i < final(self)@.len(),
            final(self)@[i as int] == key@,
    {
        let bv = chars_of(key);
        let mut k = self.buckets.len();
        let ghost old_view = self@;
        assert(old_view.subrange(0, k as int) =~= old_view);
        while k > 0
            invariant
                k <= self.buckets@.len(),
                self.wf(),
                self@ == old_view,
                bv@ == key@,
                bucket_position(old_view, bv@) == bucket_position(old_view.subrange(0, k as int), bv@),
            decreases k,
        {
            let cur = chars_of(self.buckets[k - 1].as_str());
            assert(self@[k - 1] == self.buckets@[k - 1]@);
            if vec_eq(&cur, &bv) {
                proof {
                    let sub = old_view.subrange(0, k as int);
                    assert(sub.last() == bv@);
                }
                proof { lemma_bucket_position(old_view, bv@); }
                return k - 1;
            }
            proof {
                let sub = old_view.subrange(0, k as int);
                assert(sub.drop_last() =~= old_view.subrange(0, k - 1));
            }
            k = k - 1;
        }
        proof {
            assert(old_view.subrange(0, 0) =~= Seq::<Seq<char>>::empty());
            lemma_bucket_position(old_view, bv@);
        }
        let n = self.buckets.len();
        self.buckets.push(copy_str(key));
        proof {
            assert(self@ =~= old_view.push(bv@));
        }
        n
    }
}

/// Profile requests of any two users fall into one bucket, and any other
/// route is a bucket of its own.
pub proof fn law_profile_routes_share_bucket(r1: Seq<char>, r2: Seq<char>)
    ensures
        crate::routes::is_profile_route(r1) && crate::routes::is_profile_route(r2) ==> route_bucket(r1)
            == route_bucket(r2),
        !crate::routes::is_profile_route(r1) ==> route_bucket(r1) == r1,
{
}

/// Two requests whose routes fall into one bucket wait on the same limiter:
/// the second lookup finds the limiter the first one returned, and adds
/// nothing.
pub proof fn law_same_bucket_same_limiter(buckets: Seq<Seq<char>>, r1: Seq<char>, r2: Seq<char>)
    requires
        distinct_buckets(buckets),
        route_bucket(r1) == route_bucket(r2),
    ensures
        ({
            let (after1, i1) = lookup_spec(buckets, r1);
            let (after2, i2) = lookup_spec(after1, r2);
            i1 == i2 && after2 == after1
        }),
{
    let b = route_bucket(r1);
    lemma_bucket_position(buckets, b);
    let (after1, i1) = lookup_spec(buckets, r1);
    lemma_bucket_position(after1, b);
    let p = bucket_position(after1, b);
    assert(after1[i1] == b);
    assert(p >= 0) by {
        assert(after1.contains(b)) by {
            assert(after1[i1] == b);
        }
    }
    if bucket_position(buckets, b) < 0 {
        assert forall|i: int, j: int|
            0 <= i < after1.len() && 0 <= j < after1.len() && i != j implies after1[i]
            != after1[j] by {
            if i < buckets.len() && j < buckets.len() {
            } else if i == buckets.len() {
                assert(after1[j] == buckets[j]);
            } else {
                assert(after1[i] == buckets[i]);
            }
        }
    }
    assert(p == i1);
}

} // verus!
