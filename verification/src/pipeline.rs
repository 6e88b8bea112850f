//! The per-request pipeline over an authenticated proxy request: the
//! translator's decision combined with the atomic store plan, then the
//! admission check, then the upstream decision — each stage a pure
//! decision, with the two network calls performed outside and their
//! outcomes handed back in.

use vstd::prelude::*;

use crate::auth::header_pairs_view;
use crate::ratelimit::{store_plan, store_plan_spec, StorePlan, StorePlanView};
use crate::respond::{
    success_headers, success_headers_spec, GatewayError, GatewayErrorView,
};
use crate::rules::{
    lemma_translate_forward_bounds, rules_view, translate, translate_spec, Rule, RuleView,
    Translation, TranslationView,
};
use crate::token::JWTPrincipal;
use crate::util::Obscure;

verus! {

/// The process-wide configuration the pipeline reads: the rule table,
/// the signing secret, the upstream credential and the admission knobs.
/// Built once at startup, immutable after, shared by every request.
pub struct GlobalApplicationContext {
    pub rules: Vec<Rule>,
    /// When set, every request runs as the anonymous principal and the
    /// rate limiter is bypassed.
    pub allow_anonymous: bool,
    /// The HMAC-SHA384 signing secret for session tokens.
    pub key: Vec<u8>,
    /// The upstream credential, attached to every proxied call and never
    /// shown to callers.
    pub hypixel_token: Obscure<String>,
    /// How long a freshly minted principal stays valid, in milliseconds.
    pub default_token_duration: u64,
    /// The fixed rate-limit window, in seconds.
    pub rate_limit_lifespan: u64,
    /// The admission threshold: requests per bucket and window.
    pub rate_limit_bucket: u64,
}

/// A translated request waiting on its atomic store unit: the upstream
/// URL it will forward to, and the plan to submit.
pub struct QueryPlan {
    pub url: String,
    pub plan: StorePlan,
}

/// The mathematical shape of a `QueryPlan`.
#[verifier::ext_equal]
pub struct QueryPlanView {
    pub url: Seq<char>,
    pub plan: StorePlanView,
}

impl View for QueryPlan {
    type V = QueryPlanView;

    open spec fn view(&self) -> QueryPlanView {
        QueryPlanView { url: self.url@, plan: self.plan@ }
    }
}

/// What the pipeline decides for one authenticated proxy request before
/// any store or upstream call.
pub enum RespondStep {
    /// No rule applies; other routes may still own the path.
    NoMatch,
    /// Terminal error decided by translation (segment arity).
    Reject(GatewayError),
    /// The rule's upstream template was refused by URL parsing.
    Failed,
    /// Submit the store plan, then decide admission on its answer.
    Query(QueryPlan),
}

/// The mathematical shape of a `RespondStep`.
#[verifier::ext_equal]
pub enum RespondStepView {
    NoMatch,
    Reject(GatewayErrorView),
    Failed,
    Query(QueryPlanView),
}

impl View for RespondStep {
    type V = RespondStepView;

    open spec fn view(&self) -> RespondStepView {
        match self {
            RespondStep::NoMatch => RespondStepView::NoMatch,
            RespondStep::Reject(e) => RespondStepView::Reject(e@),
            RespondStep::Failed => RespondStepView::Failed,
            RespondStep::Query(q) => RespondStepView::Query(q@),
        }
    }
}

/// The pipeline's first decision: the translator's outcome, and for a
/// forwarded request also the atomic store plan keyed by the caller's
/// identity and the matched rule.
pub open spec fn respond_step_spec(
    rules: Seq<RuleView>,
    path: Seq<char>,
    principal_id: Seq<char>,
    window_seconds: u64,
) -> RespondStepView {
    match translate_spec(rules, path) {
        TranslationView::NoRule => RespondStepView::NoMatch,
        TranslationView::Rejected(e) => RespondStepView::Reject(e),
        TranslationView::Failed => RespondStepView::Failed,
        TranslationView::Forward(f) => RespondStepView::Query(
            QueryPlanView {
                url: f.url,
                plan: store_plan_spec(
                    rules[f.rule_index],
                    f.segments,
                    principal_id,
                    window_seconds,
                ),
            },
        ),
    }
}

/// Translates an authenticated proxy request and, when a rule forwards
/// it, builds the atomic store plan, exactly as `respond_step_spec`
/// describes.
pub fn respond_to(
    cx: &GlobalApplicationContext,
    hypixel_path: &str,
    principal: &JWTPrincipal,
) -> (r: RespondStep)
    ensures
        r@ == respond_step_spec(
            rules_view(cx.rules@),
            hypixel_path@,
            principal@.id,
            cx.rate_limit_lifespan,
        ),
{
    let ghost rv = rules_view(cx.rules@);
    let t = translate(&cx.rules, hypixel_path);
    match t {
        Translation::NoRule => RespondStep::NoMatch,
        Translation::Rejected(e) => RespondStep::Reject(e),
        Translation::Failed => RespondStep::Failed,
        Translation::Forward(f) => {
            proof {
                lemma_translate_forward_bounds(rv, hypixel_path@, 0);
            }
            let rule = &cx.rules[f.rule_index];
            let plan = store_plan(rule, &f.segments, principal.id.as_str(), cx.rate_limit_lifespan);
            RespondStep::Query(QueryPlan { url: f.url, plan })
        },
    }
}

/// The upstream decision: only a 200 streams the body through, with the
/// three fixed headers; anything else is reported as an upstream
/// failure and its body discarded.
pub fn after_upstream(status: u16) -> (r: Result<Vec<(String, String)>, GatewayError>)
    ensures
        status == 200 ==> (r matches Ok(hs) && header_pairs_view(hs@) == success_headers_spec()),
        status != 200 ==> (r matches Err(e) && e@ == GatewayErrorView::UpstreamFailure),
{
    if status == 200 {
        Ok(success_headers())
    } else {
        Err(GatewayError::UpstreamFailure)
    }
}

/// The header carrying the process-held upstream credential on every
/// proxied call; the caller never sees it.
pub fn upstream_auth_header(cx: &GlobalApplicationContext) -> (h: (String, String))
    ensures
        h.0@ == "API-Key"@,
        h.1@ == cx.hypixel_token.0@,
{
    (String::from_str("API-Key"), cx.hypixel_token.0.clone())
}

} // verus!
