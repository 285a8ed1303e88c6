//! Admission control: a single token bucket shared by every request.
//!
//! The bucket holds `rate` tokens at capacity and refills at `rate` tokens
//! per second; one request costs one token. Fill is tracked in thousandths of
//! a token so that refill needs no fractional arithmetic: elapsed
//! milliseconds times the rate is exactly the refill in milli-tokens. The
//! caller supplies the clock reading, so admission is a pure function of
//! bucket state and time.
//!
//! The laws at the bottom pin the behaviour down: a burst submitted faster
//! than the refill interval — all of it inside a window too short to refill
//! one token — is granted at most `rate` admissions, a caller that never
//! asks for more than the fill can supply is never refused, and requests a
//! full refill interval apart are never refused.

use vstd::prelude::*;

verus! {

/// The token-bucket state of the admission controller.
pub struct TokenBucket {
    /// Capacity in tokens, and refill rate in tokens per second.
    pub rate: u32,
    /// Current fill, in thousandths of a token.
    pub milli_tokens: u64,
    /// Clock reading, in milliseconds, when the bucket last changed.
    pub last_ms: u64,
}

impl TokenBucket {
    /// The bucket's invariant: a positive budget, and never filled past
    /// capacity.
    pub open spec fn wf(self) -> bool {
        &&& 1 <= self.rate
        &&& self.milli_tokens <= self.rate * 1000
    }

    /// The fill after crediting the time elapsed since the last change: full
    /// after a whole refill interval, otherwise grown by elapsed milliseconds
    /// times the rate, and never past capacity.
    pub open spec fn spec_refill(self, now_ms: u64) -> int {
        let elapsed = now_ms - self.last_ms;
        if elapsed >= 1000 {
            self.rate * 1000
        } else if self.milli_tokens + elapsed * self.rate >= self.rate * 1000 {
            self.rate * 1000
        } else {
            self.milli_tokens + elapsed * self.rate
        }
    }

    /// Whether a request arriving at `now_ms` is admitted: the refilled
    /// bucket must hold at least one whole token.
    pub open spec fn spec_allowed(self, now_ms: u64) -> bool {
        self.spec_refill(now_ms) >= 1000
    }

    /// The bucket after one admission decision at `now_ms`.
    pub open spec fn spec_after(self, now_ms: u64) -> TokenBucket {
        TokenBucket {
            rate: self.rate,
            milli_tokens: if self.spec_allowed(now_ms) {
                (self.spec_refill(now_ms) - 1000) as u64
            } else {
                self.spec_refill(now_ms) as u64
            },
            last_ms: now_ms,
        }
    }

    /// A bucket that starts at capacity.
    pub fn new(rate: u32, now_ms: u64) -> (b: TokenBucket)
        requires
            1 <= rate,
        ensures
            b.wf(),
            b.rate == rate,
            b.milli_tokens == rate * 1000,
            b.last_ms == now_ms,
    {
        TokenBucket { rate, milli_tokens: (rate as u64) * 1000, last_ms: now_ms }
    }

    /// The admission decision: synchronous and non-blocking; the caller must
    /// refuse the request, and do no further work for it, when this returns
    /// false.
    pub fn try_acquire(&mut self, now_ms: u64) -> (allowed: bool)
        requires
            old(self).wf(),
            old(self).last_ms <= now_ms,
        ensures
            allowed == old(self).spec_allowed(now_ms),
            *final(self) == old(self).spec_after(now_ms),
            final(self).wf(),
    {
        let elapsed: u64 = now_ms - self.last_ms;
        let cap: u64 = (self.rate as u64) * 1000;
        let refilled: u64 = if elapsed >= 1000 {
            cap
        } else {
            proof {
                assert(elapsed * (self.rate as u64) <= 999 * 0xffff_ffffu64) by (nonlinear_arith)
                    requires
                        elapsed < 1000,
                        self.rate <= 0xffff_ffffu32,
                ;
            }
            let credit: u64 = elapsed * (self.rate as u64);
            if self.milli_tokens >= cap || credit >= cap - self.milli_tokens {
                cap
            } else {
                self.milli_tokens + credit
            }
        };
        self.last_ms = now_ms;
        if refilled >= 1000 {
            self.milli_tokens = refilled - 1000;
            true
        } else {
            self.milli_tokens = refilled;
            false
        }
    }
}

/// The bucket after a run of admission decisions, one per clock reading,
/// oldest first.
pub open spec fn spec_run(b: TokenBucket, times: Seq<u64>) -> TokenBucket
    decreases times.len(),
{
    if times.len() == 0 {
        b
    } else {
        spec_run(b.spec_after(times[0]), times.drop_first())
    }
}

/// How many decisions of such a run come out admitted.
pub open spec fn spec_admitted_count(b: TokenBucket, times: Seq<u64>) -> int
    decreases times.len(),
{
    if times.len() == 0 {
        0int
    } else {
        (if b.spec_allowed(times[0]) {
            1int
        } else {
            0int
        }) + spec_admitted_count(b.spec_after(times[0]), times.drop_first())
    }
}

/// Clock readings that never move backwards.
pub open spec fn monotone_from(times: Seq<u64>, start: u64) -> bool {
    &&& (times.len() > 0 ==> start <= times[0])
    &&& forall|i: int| 0 < i < times.len() ==> times[i - 1] <= #[trigger] times[i]
}

/// In a run of monotone clock readings, every reading lies between the
/// first and the last.
proof fn lemma_monotone_bounds(times: Seq<u64>, start: u64)
    requires
        monotone_from(times, start),
        times.len() > 0,
    ensures
        start <= times[0],
        forall|i: int| 0 <= i < times.len() ==> times[0] <= #[trigger] times[i] <= times.last(),
    decreases times.len(),
{
    if times.len() > 1 {
        let rest = times.drop_first();
        assert(monotone_from(rest, times[0])) by {
            assert(forall|i: int| 0 < i < rest.len() ==> rest[i - 1] <= #[trigger] rest[i]);
        }
        lemma_monotone_bounds(rest, times[0]);
        assert forall|i: int| 0 <= i < times.len() implies times[0] <= #[trigger] times[i]
            <= times.last() by {
            assert(times.last() == rest.last());
            if i > 0 {
                assert(times[i] == rest[i - 1]);
                assert(rest[0] <= rest[i - 1] <= rest.last());
            }
            assert(times[0] <= rest[0]);
            assert(rest[0] <= rest.last());
        }
    }
}

/// Over a run whose clock readings all fall within a window shorter than
/// one token's refill, the bucket pays out at most its fill plus what the
/// window can refill.
proof fn lemma_window_run(b: TokenBucket, times: Seq<u64>)
    requires
        b.wf(),
        monotone_from(times, b.last_ms),
        times.len() > 0 ==> (times.last() - b.last_ms) * b.rate < 1000,
    ensures
        spec_admitted_count(b, times) >= 0,
        times.len() > 0 ==> spec_admitted_count(b, times) * 1000 <= b.milli_tokens + (
        times.last() - b.last_ms) * b.rate,
    decreases times.len(),
{
    if times.len() > 0 {
        let t1 = times[0];
        let last = times.last();
        lemma_monotone_bounds(times, b.last_ms);
        let e = t1 - b.last_ms;
        assert(e * b.rate <= (last - b.last_ms) * b.rate && e <= e * b.rate) by (nonlinear_arith)
            requires
                0 <= e,
                e <= last - b.last_ms,
                1 <= b.rate,
        ;
        assert(e < 1000);
        let refill = b.spec_refill(t1);
        assert(refill <= b.milli_tokens + e * b.rate);
        let b2 = b.spec_after(t1);
        let rest = times.drop_first();
        assert(monotone_from(rest, t1)) by {
            assert(forall|i: int| 0 < i < rest.len() ==> rest[i - 1] <= #[trigger] rest[i]);
        }
        if rest.len() > 0 {
            assert(rest.last() == last);
            assert((last - t1) * b.rate <= (last - b.last_ms) * b.rate) by (nonlinear_arith)
                requires
                    0 <= last - t1,
                    last - t1 <= last - b.last_ms,
                    1 <= b.rate,
            ;
            lemma_window_run(b2, rest);
            assert((e + (last - t1)) * b.rate == e * b.rate + (last - t1) * b.rate)
                by (nonlinear_arith);
        } else {
            lemma_window_run(b2, rest);
        }
    }
}

/// Admission control under a burst: of any number of requests submitted
/// faster than the refill interval — monotone arrivals, all inside a window
/// too short to refill even one token; a same-instant burst is the
/// window-zero case — at most `rate` are admitted, so of a burst larger
/// than the budget, at least `burst - rate` are refused.
pub proof fn lemma_burst_admits_at_most_budget(b: TokenBucket, times: Seq<u64>)
    requires
        b.wf(),
        monotone_from(times, b.last_ms),
        times.len() > 0 ==> (times.last() - times[0]) * b.rate < 1000,
    ensures
        spec_admitted_count(b, times) <= b.rate,
        times.len() - spec_admitted_count(b, times) >= times.len() - b.rate,
{
    if times.len() > 0 {
        let t1 = times[0];
        let last = times.last();
        lemma_monotone_bounds(times, b.last_ms);
        let refill = b.spec_refill(t1);
        assert(refill <= b.rate * 1000);
        let b2 = b.spec_after(t1);
        let rest = times.drop_first();
        assert(monotone_from(rest, t1)) by {
            assert(forall|i: int| 0 < i < rest.len() ==> rest[i - 1] <= #[trigger] rest[i]);
        }
        if rest.len() > 0 {
            assert(rest.last() == last);
            lemma_window_run(b2, rest);
            assert(spec_admitted_count(b2, rest) * 1000 <= b2.milli_tokens + (last - t1) * b.rate);
        }
    }
}

/// A caller who asks for no more than the fill can pay for is never refused:
/// every decision of the run is admitted. In particular, a bucket at
/// capacity admits any `rate` requests, however tightly they are spaced.
pub proof fn lemma_within_budget_all_admitted(b: TokenBucket, times: Seq<u64>)
    requires
        b.wf(),
        monotone_from(times, b.last_ms),
        times.len() * 1000 <= b.milli_tokens,
    ensures
        spec_admitted_count(b, times) == times.len(),
    decreases times.len(),
{
    if times.len() > 0 {
        let b2 = b.spec_after(times[0]);
        assert(b.spec_refill(times[0]) >= b.milli_tokens);
        assert(b.spec_allowed(times[0]));
        assert(monotone_from(times.drop_first(), b2.last_ms)) by {
            assert(forall|i: int|
                0 < i < times.drop_first().len() ==> times.drop_first()[i - 1]
                    <= #[trigger] times.drop_first()[i]);
        }
        lemma_within_budget_all_admitted(b2, times.drop_first());
    }
}

/// Requests spaced at least a whole refill interval apart are never refused,
/// no matter how many arrive: each one finds the bucket refilled to
/// capacity.
pub proof fn lemma_spaced_all_admitted(b: TokenBucket, times: Seq<u64>)
    requires
        b.wf(),
        times.len() > 0 ==> b.last_ms + 1000 <= times[0],
        forall|i: int| 0 < i < times.len() ==> times[i - 1] + 1000 <= #[trigger] times[i],
    ensures
        spec_admitted_count(b, times) == times.len(),
    decreases times.len(),
{
    if times.len() > 0 {
        let b2 = b.spec_after(times[0]);
        assert(b.spec_refill(times[0]) == b.rate * 1000);
        assert(b.spec_allowed(times[0]));
        assert(forall|i: int|
            0 < i < times.drop_first().len() ==> times.drop_first()[i - 1] + 1000
                <= #[trigger] times.drop_first()[i]);
        lemma_spaced_all_admitted(b2, times.drop_first());
    }
}

} // verus!
