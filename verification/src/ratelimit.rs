//! The rate limiter: the atomic unit of store work submitted for every
//! admitted request, the admission decision over the usage it reads
//! back, and a model of the store's keyspace under which the
//! fixed-window properties are proved.

use vstd::prelude::*;

use crate::respond::{GatewayError, GatewayErrorView};
use crate::rules::RuleView;
use crate::rules::Rule;
use crate::text::{join_with_colons, joined_with_colons};

verus! {

/// The store key of a principal's rate-limit bucket.
pub fn ratelimit_key(principal_id: &str) -> (r: String)
    ensures
        r@ == "ratelimit:"@ + principal_id@,
{
    let mut s = String::from_str("ratelimit:");
    s.append(principal_id);
    s
}

/// The atomic unit of store work for one admitted request: bump the
/// rule's per-request diagnostic counter, anchor the bucket's window if
/// it has none yet, bump the bucket's usage and read it back, and bump
/// the rule's accumulated diagnostic counter — submitted as one
/// pipelined unit so concurrent requests cannot tear it.
pub struct StorePlan {
    /// Sorted-set key of the per-rule request counter (diagnostics).
    pub request_key: String,
    /// Sorted-set member: the literal path segments joined with `:`.
    pub diagnostics_member: String,
    /// The principal's bucket key: usage counter plus window expiry.
    pub bucket_key: String,
    /// The fixed window length the bucket's expiry is anchored with.
    pub window_seconds: u64,
    /// Plain key of the rule's accumulated counter (diagnostics).
    pub accumulated_key: String,
}

/// The mathematical shape of a `StorePlan`.
#[verifier::ext_equal]
pub struct StorePlanView {
    pub request_key: Seq<char>,
    pub diagnostics_member: Seq<char>,
    pub bucket_key: Seq<char>,
    pub window_seconds: u64,
    pub accumulated_key: Seq<char>,
}

impl View for StorePlan {
    type V = StorePlanView;

    open spec fn view(&self) -> StorePlanView {
        StorePlanView {
            request_key: self.request_key@,
            diagnostics_member: self.diagnostics_member@,
            bucket_key: self.bucket_key@,
            window_seconds: self.window_seconds,
            accumulated_key: self.accumulated_key@,
        }
    }
}

/// The plan a matched rule, its supplied segments and the caller's
/// identity determine.
pub open spec fn store_plan_spec(
    rule: RuleView,
    segments: Seq<Seq<char>>,
    principal_id: Seq<char>,
    window_seconds: u64,
) -> StorePlanView {
    StorePlanView {
        request_key: "hypixel:request:"@ + rule.http_path,
        diagnostics_member: joined_with_colons(segments),
        bucket_key: "ratelimit:"@ + principal_id,
        window_seconds: window_seconds,
        accumulated_key: "hypixel:accumulated:"@ + rule.http_path,
    }
}

/// Builds the store plan for one admitted request.
pub fn store_plan(
    rule: &Rule,
    segments: &Vec<String>,
    principal_id: &str,
    window_seconds: u64,
) -> (p: StorePlan)
    ensures
        p@ == store_plan_spec(
            rule@,
            segments@.map_values(|s: String| s@),
            principal_id@,
            window_seconds,
        ),
{
    let p = StorePlan {
        request_key: rule.request_statistics_key(),
        diagnostics_member: join_with_colons(segments),
        bucket_key: ratelimit_key(principal_id),
        window_seconds,
        accumulated_key: rule.accumulated_statistics_key(),
    };
    assert(p@ =~= store_plan_spec(
        rule@,
        segments@.map_values(|s: String| s@),
        principal_id@,
        window_seconds,
    ));
    p
}

/// What the store answered for the bucket's post-increment usage: an
/// integer, or anything else (a store-level failure).
#[derive(Clone, Copy, PartialEq, Eq, Structural, Debug)]
pub enum StoreReply {
    Count(i64),
    Malformed,
}

/// The view of the admission result.
pub open spec fn admission_result_view(r: Result<(), GatewayError>) -> Result<
    (),
    GatewayErrorView,
> {
    match r {
        Ok(u) => Ok(u),
        Err(e) => Err(e@),
    }
}

/// The admission decision: a malformed store answer is a hard store
/// failure, never an "allow"; a usage above the threshold is rejected as
/// rate-limited — unless anonymous mode is enabled, which bypasses the
/// limiter entirely.
pub open spec fn admission_spec(
    reply: StoreReply,
    threshold: u64,
    allow_anonymous: bool,
) -> Result<(), GatewayErrorView> {
    match reply {
        StoreReply::Count(n) => if n > threshold && !allow_anonymous {
            Err(GatewayErrorView::RateLimited)
        } else {
            Ok(())
        },
        StoreReply::Malformed => Err(GatewayErrorView::StoreFailure),
    }
}

/// Decides admission from the usage the store read back, exactly as
/// `admission_spec` describes.
pub fn admission(reply: &StoreReply, threshold: u64, allow_anonymous: bool) -> (r: Result<
    (),
    GatewayError,
>)
    ensures
        admission_result_view(r) == admission_spec(*reply, threshold, allow_anonymous),
{
    match reply {
        StoreReply::Count(n) => {
            let over = *n > 0 && (*n as u64) > threshold;
            assert(over == (*n > threshold));
            if over && !allow_anonymous {
                Err(GatewayError::RateLimited)
            } else {
                Ok(())
            }
        },
        StoreReply::Malformed => Err(GatewayError::StoreFailure),
    }
}

/// A model of the store's keyspace as the limiter uses it: plain
/// counters, sorted-set member scores, and the absolute expiry (in
/// milliseconds) of each key that has one.
pub struct StoreModel {
    pub counters: Map<Seq<char>, int>,
    pub scores: Map<(Seq<char>, Seq<char>), int>,
    pub expiries: Map<Seq<char>, int>,
}

/// A counter's value; an absent key counts as zero.
pub open spec fn counter_value(m: Map<Seq<char>, int>, k: Seq<char>) -> int {
    if m.contains_key(k) {
        m[k]
    } else {
        0
    }
}

/// A member's score; an absent member counts as zero.
pub open spec fn score_value(m: Map<(Seq<char>, Seq<char>), int>, k: (Seq<char>, Seq<char>)) -> int {
    if m.contains_key(k) {
        m[k]
    } else {
        0
    }
}

/// The usage value the atomic unit reads back: the bucket counter after
/// its increment.
pub open spec fn usage_after(s: StoreModel, plan: StorePlanView) -> int {
    counter_value(s.counters, plan.bucket_key) + 1
}

/// One atomic unit applied at time `now` (milliseconds): both counters
/// incremented, the diagnostic score bumped, and the bucket's expiry set
/// to `now` plus the window — only if the bucket has no expiry yet, so
/// the window stays anchored to its first use.
pub open spec fn apply_plan(s: StoreModel, plan: StorePlanView, now: int) -> StoreModel {
    StoreModel {
        counters: counter_incr(counter_incr(s.counters, plan.bucket_key), plan.accumulated_key),
        scores: s.scores.insert(
            (plan.request_key, plan.diagnostics_member),
            score_value(s.scores, (plan.request_key, plan.diagnostics_member)) + 1,
        ),
        expiries: if s.expiries.contains_key(plan.bucket_key) {
            s.expiries
        } else {
            s.expiries.insert(plan.bucket_key, now + plan.window_seconds * 1000)
        },
    }
}

/// A counter incremented by one.
pub open spec fn counter_incr(m: Map<Seq<char>, int>, k: Seq<char>) -> Map<Seq<char>, int> {
    m.insert(k, counter_value(m, k) + 1)
}

/// The store dropping every key whose expiry has passed, as time reaches
/// `now`: its counter and its expiry disappear together.
pub open spec fn elapse(s: StoreModel, now: int) -> StoreModel {
    let live = Set::new(
        |k: Seq<char>| !(s.expiries.contains_key(k) && s.expiries[k] <= now),
    );
    StoreModel {
        counters: s.counters.restrict(live),
        scores: s.scores,
        expiries: s.expiries.restrict(live),
    }
}

/// The atomic unit applied once at each time of `times`, in order.
pub open spec fn apply_plan_times(s: StoreModel, plan: StorePlanView, times: Seq<int>) -> StoreModel
    decreases times.len(),
{
    if times.len() == 0 {
        s
    } else {
        apply_plan(apply_plan_times(s, plan, times.drop_last()), plan, times.last())
    }
}

/// Two requests for the same bucket inside one window: the first to run
/// anchors the expiry, and the second — and any later one — never moves
/// it.
pub proof fn lemma_expiry_set_once(s: StoreModel, plan: StorePlanView, t1: int, t2: int)
    requires
        !s.expiries.contains_key(plan.bucket_key),
    ensures
        apply_plan(s, plan, t1).expiries[plan.bucket_key] == t1 + plan.window_seconds * 1000,
        apply_plan(apply_plan(s, plan, t1), plan, t2).expiries[plan.bucket_key] == t1
            + plan.window_seconds * 1000,
{
}

/// Starting from a fresh bucket, each run of the atomic unit raises the
/// bucket's usage by exactly one: after `n` requests the usage read back
/// by the last is `n`, and the expiry still stands where the first
/// request anchored it.
pub proof fn lemma_usage_counts(s: StoreModel, plan: StorePlanView, times: Seq<int>)
    requires
        plan.bucket_key != plan.accumulated_key,
        !s.counters.contains_key(plan.bucket_key),
        !s.expiries.contains_key(plan.bucket_key),
        times.len() > 0,
    ensures
        counter_value(apply_plan_times(s, plan, times).counters, plan.bucket_key)
            == times.len(),
        usage_after(apply_plan_times(s, plan, times.drop_last()), plan) == times.len(),
        apply_plan_times(s, plan, times).expiries[plan.bucket_key] == times[0]
            + plan.window_seconds * 1000,
    decreases times.len(),
{
    if times.len() == 1 {
        assert(times.drop_last() =~= Seq::<int>::empty());
        assert(apply_plan_times(s, plan, times.drop_last()) == s);
        assert(apply_plan_times(s, plan, times) == apply_plan(s, plan, times.last()));
        assert(counter_value(apply_plan(s, plan, times.last()).counters, plan.bucket_key) == 1);
    } else {
        lemma_usage_counts(s, plan, times.drop_last());
        assert(times.drop_last()[0] == times[0]);
        let prev = apply_plan_times(s, plan, times.drop_last());
        assert(apply_plan_times(s, plan, times) == apply_plan(prev, plan, times.last()));
        assert(counter_value(apply_plan(prev, plan, times.last()).counters, plan.bucket_key)
            == counter_value(prev.counters, plan.bucket_key) + 1);
        assert(apply_plan(prev, plan, times.last()).expiries == prev.expiries);
    }
}

/// With threshold `n`, the `n + 1`-th request of one window reads back a
/// usage above the threshold and is rejected as rate-limited (anonymous
/// mode not enabled); every request up to the threshold is admitted.
pub proof fn lemma_threshold_rejection(
    s: StoreModel,
    plan: StorePlanView,
    times: Seq<int>,
    threshold: u64,
)
    requires
        plan.bucket_key != plan.accumulated_key,
        !s.counters.contains_key(plan.bucket_key),
        !s.expiries.contains_key(plan.bucket_key),
        times.len() == threshold + 1,
        threshold + 1 <= i64::MAX,
    ensures
        admission_spec(
            StoreReply::Count(usage_after(apply_plan_times(s, plan, times.drop_last()), plan) as i64),
            threshold,
            false,
        ) == Err::<(), GatewayErrorView>(GatewayErrorView::RateLimited),
        forall|k: int|
            0 < k <= threshold ==> admission_spec(
                StoreReply::Count(
                    #[trigger] usage_after(
                        apply_plan_times(s, plan, times.take(k).drop_last()),
                        plan,
                    ) as i64,
                ),
                threshold,
                false,
            ) == Ok::<(), GatewayErrorView>(()),
{
    lemma_usage_counts(s, plan, times);
    assert forall|k: int| 0 < k <= threshold implies admission_spec(
        StoreReply::Count(
            usage_after(apply_plan_times(s, plan, times.take(k).drop_last()), plan) as i64,
        ),
        threshold,
        false,
    ) == Ok::<(), GatewayErrorView>(()) by {
        lemma_usage_counts(s, plan, times.take(k));
    }
}

/// Once the bucket's window elapses, the store drops the bucket: a new
/// request is admitted again and a fresh window begins, anchored at that
/// request.
pub proof fn lemma_window_reset(s: StoreModel, plan: StorePlanView, now: int, threshold: u64)
    requires
        s.expiries.contains_key(plan.bucket_key),
        s.expiries[plan.bucket_key] <= now,
        threshold >= 1,
    ensures
        usage_after(elapse(s, now), plan) == 1,
        admission_spec(StoreReply::Count(1), threshold, false) == Ok::<(), GatewayErrorView>(()),
        apply_plan(elapse(s, now), plan, now).expiries[plan.bucket_key] == now
            + plan.window_seconds * 1000,
{
    let e = elapse(s, now);
    assert(!e.counters.contains_key(plan.bucket_key));
    assert(!e.expiries.contains_key(plan.bucket_key));
}

} // verus!
