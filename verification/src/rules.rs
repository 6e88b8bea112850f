//! The rule table and the path translator: matching an inbound path
//! against the first applicable rule and building the validated upstream
//! URL from its path segments.

use vstd::prelude::*;

use crate::respond::{GatewayError, GatewayErrorView};
use crate::text::{split_path_segments, split_segments, strip_prefix_str};
use crate::weburl::{params_view, url_with_params, url_with_params_of};

verus! {

/// One path-translation rule, loaded at startup and immutable after.
/// `query_arguments` names, in order, the query parameters that the path
/// segments after `http_path` are translated into.
pub struct Rule {
    pub http_path: String,
    pub hypixel_path: String,
    pub query_arguments: Vec<String>,
}

/// The mathematical shape of a `Rule`.
#[verifier::ext_equal]
pub struct RuleView {
    pub http_path: Seq<char>,
    pub hypixel_path: Seq<char>,
    pub query_arguments: Seq<Seq<char>>,
}

impl View for Rule {
    type V = RuleView;

    open spec fn view(&self) -> RuleView {
        RuleView {
            http_path: self.http_path@,
            hypixel_path: self.hypixel_path@,
            query_arguments: self.query_arguments@.map_values(|a: String| a@),
        }
    }
}

/// The view of a whole rule table.
pub open spec fn rules_view(rules: Seq<Rule>) -> Seq<RuleView> {
    rules.map_values(|r: Rule| r@)
}

impl Rule {
    /// The store key of this rule's accumulated diagnostic counter.
    pub fn accumulated_statistics_key(&self) -> (r: String)
        ensures
            r@ == "hypixel:accumulated:"@ + self.http_path@,
    {
        let mut s = String::from_str("hypixel:accumulated:");
        s.append(self.http_path.as_str());
        s
    }

    /// The store key of this rule's per-request diagnostic counter.
    pub fn request_statistics_key(&self) -> (r: String)
        ensures
            r@ == "hypixel:request:"@ + self.http_path@,
    {
        let mut s = String::from_str("hypixel:request:");
        s.append(self.http_path.as_str());
        s
    }
}

/// Whether a rule applies to a path: its public path starts the path.
pub open spec fn rule_matches(rule: RuleView, path: Seq<char>) -> bool {
    rule.http_path.is_prefix_of(path)
}

/// Whether `i` is the first rule of the table that applies to `path`
/// (rules are evaluated in load order, first match wins).
pub open spec fn is_first_match(rules: Seq<RuleView>, path: Seq<char>, i: int) -> bool {
    &&& 0 <= i < rules.len()
    &&& rule_matches(rules[i], path)
    &&& forall|j: int| 0 <= j < i ==> !rule_matches(#[trigger] rules[j], path)
}

/// The ordered `(argument name, path segment)` pairs substituted into the
/// upstream template.
pub open spec fn query_pairs(args: Seq<Seq<char>>, segs: Seq<Seq<char>>) -> Seq<
    (Seq<char>, Seq<char>),
> {
    Seq::new(args.len(), |i: int| (args[i], segs[i]))
}

/// What the translator decides for one request path.
pub enum Translation {
    /// No rule applies; the pipeline goes on to other routes.
    NoRule,
    /// The path carries too few or too many segments for the rule.
    Rejected(GatewayError),
    /// The validated upstream call to make.
    Forward(ForwardPlan),
    /// The rule's upstream template was refused by URL parsing.
    Failed,
}

/// A validated upstream call: the URL to request, which rule produced it,
/// and the literal path segments that were substituted.
pub struct ForwardPlan {
    pub url: String,
    pub rule_index: usize,
    pub segments: Vec<String>,
}

/// The mathematical shape of a `ForwardPlan`.
#[verifier::ext_equal]
pub struct ForwardPlanView {
    pub url: Seq<char>,
    pub rule_index: int,
    pub segments: Seq<Seq<char>>,
}

/// The mathematical shape of a `Translation`.
#[verifier::ext_equal]
pub enum TranslationView {
    NoRule,
    Rejected(GatewayErrorView),
    Forward(ForwardPlanView),
    Failed,
}

impl View for ForwardPlan {
    type V = ForwardPlanView;

    open spec fn view(&self) -> ForwardPlanView {
        ForwardPlanView {
            url: self.url@,
            rule_index: self.rule_index as int,
            segments: self.segments@.map_values(|s: String| s@),
        }
    }
}

impl View for Translation {
    type V = TranslationView;

    open spec fn view(&self) -> TranslationView {
        match self {
            Translation::NoRule => TranslationView::NoRule,
            Translation::Rejected(e) => TranslationView::Rejected(e@),
            Translation::Forward(p) => TranslationView::Forward(p@),
            Translation::Failed => TranslationView::Failed,
        }
    }
}

/// The segments a path supplies for a rule: the non-empty `/`-separated
/// parts of what follows the rule's public path.
pub open spec fn supplied_segments(rule: RuleView, path: Seq<char>) -> Seq<Seq<char>> {
    split_segments(path.skip(rule.http_path.len() as int))
}

/// What translation decides once the first applicable rule `i` is known:
/// too few segments name the first missing argument, too many name the
/// first extra segment, and an exact count builds the upstream URL.
pub open spec fn rule_outcome(rule: RuleView, i: int, path: Seq<char>) -> TranslationView {
    let segs = supplied_segments(rule, path);
    let args = rule.query_arguments;
    if segs.len() < args.len() {
        TranslationView::Rejected(
            GatewayErrorView::BadRequest("Missing query argument "@ + args[segs.len() as int]),
        )
    } else if segs.len() > args.len() {
        TranslationView::Rejected(
            GatewayErrorView::BadRequest(
                "Superfluous query argument "@ + segs[args.len() as int],
            ),
        )
    } else {
        match url_with_params_of(rule.hypixel_path, query_pairs(args, segs)) {
            Some(u) => TranslationView::Forward(
                ForwardPlanView { url: u, rule_index: i, segments: segs },
            ),
            None => TranslationView::Failed,
        }
    }
}

/// Translation restricted to the rules from index `i` on.
pub open spec fn translate_from(rules: Seq<RuleView>, path: Seq<char>, i: int) -> TranslationView
    decreases rules.len() - i,
{
    if i < 0 || i >= rules.len() {
        TranslationView::NoRule
    } else if rule_matches(rules[i], path) {
        rule_outcome(rules[i], i, path)
    } else {
        translate_from(rules, path, i + 1)
    }
}

/// What the translator decides for `path` against the whole table.
pub open spec fn translate_spec(rules: Seq<RuleView>, path: Seq<char>) -> TranslationView {
    translate_from(rules, path, 0)
}

/// Translation is decided by the first applicable rule.
pub proof fn lemma_translate_first_match(rules: Seq<RuleView>, path: Seq<char>, i: int)
    requires
        is_first_match(rules, path, i),
    ensures
        translate_spec(rules, path) == rule_outcome(rules[i], i, path),
{
    lemma_translate_from_first_match(rules, path, 0, i);
}

proof fn lemma_translate_from_first_match(rules: Seq<RuleView>, path: Seq<char>, k: int, i: int)
    requires
        is_first_match(rules, path, i),
        0 <= k <= i,
    ensures
        translate_from(rules, path, k) == rule_outcome(rules[i], i, path),
    decreases i - k,
{
    if k < i {
        lemma_translate_from_first_match(rules, path, k + 1, i);
    }
}

/// A translation that forwards names an in-range rule, the one that
/// matched first.
pub proof fn lemma_translate_forward_bounds(rules: Seq<RuleView>, path: Seq<char>, i: int)
    ensures
        translate_from(rules, path, i) matches TranslationView::Forward(f) ==> i <= f.rule_index
            < rules.len() && is_first_match(rules.skip(i), path, f.rule_index - i),
    decreases rules.len() - i,
{
    if 0 <= i < rules.len() && !rule_matches(rules[i], path) {
        lemma_translate_forward_bounds(rules, path, i + 1);
        match translate_from(rules, path, i) {
            TranslationView::Forward(f) => {
                assert(rules.skip(i + 1) =~= rules.skip(i).drop_first());
                assert forall|j: int| 0 <= j < f.rule_index - i implies !rule_matches(
                    #[trigger] rules.skip(i)[j],
                    path,
                ) by {
                    if j > 0 {
                        assert(rules.skip(i)[j] == rules.skip(i + 1)[j - 1]);
                    }
                }
            },
            _ => {},
        }
    }
}

/// For every rule table, path and first-matching rule that is supplied
/// exactly as many segments as it has argument names, translation
/// builds the upstream URL from the ordered `(name, segment)` pairs —
/// each supplied segment stands, URL-encoded by the URL builder, under
/// its corresponding argument name, in order.
pub proof fn lemma_exact_arguments_translate(rules: Seq<RuleView>, path: Seq<char>, i: int)
    requires
        is_first_match(rules, path, i),
        supplied_segments(rules[i], path).len() == rules[i].query_arguments.len(),
    ensures
        ({
            let segs = supplied_segments(rules[i], path);
            let args = rules[i].query_arguments;
            let pairs = query_pairs(args, segs);
            &&& (forall|k: int| 0 <= k < args.len() ==> pairs[k] == (args[k], segs[k]))
            &&& match url_with_params_of(rules[i].hypixel_path, pairs) {
                Some(u) => translate_spec(rules, path) == TranslationView::Forward(
                    ForwardPlanView { url: u, rule_index: i, segments: segs },
                ),
                None => translate_spec(rules, path) == TranslationView::Failed,
            }
        }),
{
    lemma_translate_first_match(rules, path, i);
}

/// Supplying fewer segments than the rule's argument names yields a bad
/// request naming the first missing argument.
pub proof fn lemma_missing_argument_translate(rules: Seq<RuleView>, path: Seq<char>, i: int)
    requires
        is_first_match(rules, path, i),
        supplied_segments(rules[i], path).len() < rules[i].query_arguments.len(),
    ensures
        translate_spec(rules, path) == TranslationView::Rejected(
            GatewayErrorView::BadRequest(
                "Missing query argument "@ + rules[i].query_arguments[supplied_segments(
                    rules[i],
                    path,
                ).len() as int],
            ),
        ),
{
    lemma_translate_first_match(rules, path, i);
}

/// Supplying more segments than the rule's argument names yields a bad
/// request naming the first extra segment.
pub proof fn lemma_superfluous_argument_translate(rules: Seq<RuleView>, path: Seq<char>, i: int)
    requires
        is_first_match(rules, path, i),
        supplied_segments(rules[i], path).len() > rules[i].query_arguments.len(),
    ensures
        translate_spec(rules, path) == TranslationView::Rejected(
            GatewayErrorView::BadRequest(
                "Superfluous query argument "@ + supplied_segments(rules[i], path)[rules[i]
                    .query_arguments.len() as int],
            ),
        ),
{
    lemma_translate_first_match(rules, path, i);
}

/// Matches `path` against the rule table in load order and builds the
/// validated upstream call, exactly as `translate_spec` describes.
pub fn translate(rules: &Vec<Rule>, path: &str) -> (t: Translation)
    ensures
        t@ == translate_spec(rules_view(rules@), path@),
{
    let ghost rv = rules_view(rules@);
    let mut i: usize = 0;
    while i < rules.len()
        invariant
            i <= rules@.len(),
            rv == rules_view(rules@),
            translate_spec(rv, path@) == translate_from(rv, path@, i as int),
        decreases rules@.len() - i,
    {
        let rule = &rules[i];
        match strip_prefix_str(path, rule.http_path.as_str()) {
            Some(rest) => {
                assert(rule_matches(rv[i as int], path@));
                let t = translate_matched(rule, i, rest.as_str(), Ghost(path@));
                proof {
                    assert(translate_from(rv, path@, i as int) == rule_outcome(
                        rv[i as int],
                        i as int,
                        path@,
                    ));
                }
                return t;
            },
            None => {
                assert(!rule_matches(rv[i as int], path@));
                assert(translate_from(rv, path@, i as int) == translate_from(
                    rv,
                    path@,
                    i as int + 1,
                ));
            },
        }
        i += 1;
    }
    assert(translate_from(rv, path@, i as int) == TranslationView::NoRule);
    Translation::NoRule
}

/// Builds the outcome for the rule that matched: checks the segment count
/// and substitutes the ordered pairs into the upstream template.
fn translate_matched(
    rule: &Rule,
    rule_index: usize,
    rest: &str,
    Ghost(path): Ghost<Seq<char>>,
) -> (t: Translation)
    requires
        rule@.http_path.is_prefix_of(path),
        rest@ == path.skip(rule@.http_path.len() as int),
    ensures
        t@ == rule_outcome(rule@, rule_index as int, path),
{
    let segments = split_path_segments(rest);
    let ghost segs = supplied_segments(rule@, path);
    let ghost args = rule@.query_arguments;
    assert(segments@.map_values(|x: String| x@) == segs);
    assert(segments@.len() == segs.len());
    let nargs = rule.query_arguments.len();
    if segments.len() < nargs {
        let mut msg = String::from_str("Missing query argument ");
        msg.append(rule.query_arguments[segments.len()].as_str());
        assert(msg@ == "Missing query argument "@ + args[segs.len() as int]);
        Translation::Rejected(GatewayError::BadRequest(msg))
    } else if segments.len() > nargs {
        let mut msg = String::from_str("Superfluous query argument ");
        msg.append(segments[nargs].as_str());
        assert(msg@ == "Superfluous query argument "@ + segs[args.len() as int]);
        Translation::Rejected(GatewayError::BadRequest(msg))
    } else {
        let mut pairs: Vec<(String, String)> = Vec::new();
        let mut k: usize = 0;
        while k < nargs
            invariant
                k <= nargs,
                nargs == args.len(),
                nargs == segs.len(),
                args == rule@.query_arguments,
                segs == segments@.map_values(|x: String| x@),
                nargs == rule.query_arguments@.len(),
                segments@.len() == segs.len(),
                params_view(pairs@) =~= query_pairs(args, segs).take(k as int),
            decreases nargs - k,
        {
            let ghost pairs_pre = pairs@;
            let pair = (rule.query_arguments[k].clone(), segments[k].clone());
            assert(pair.0@ == args[k as int] && pair.1@ == segs[k as int]);
            pairs.push(pair);
            proof {
                assert(params_view(pairs@) =~= params_view(pairs_pre).push(
                    (args[k as int], segs[k as int]),
                ));
                assert(query_pairs(args, segs).take(k as int + 1) =~= query_pairs(
                    args,
                    segs,
                ).take(k as int).push((args[k as int], segs[k as int])));
            }
            k += 1;
        }
        assert(params_view(pairs@) =~= query_pairs(args, segs));
        match url_with_params(rule.hypixel_path.as_str(), &pairs) {
            Some(url) => {
                let t = Translation::Forward(
                    ForwardPlan { url, rule_index, segments },
                );
                assert(t@ =~= rule_outcome(rule@, rule_index as int, path));
                t
            },
            None => {
                assert(Translation::Failed@ =~= rule_outcome(rule@, rule_index as int, path));
                Translation::Failed
            },
        }
    }
}

} // verus!
