//! Ordered collection of evaluation rules.
use vstd::prelude::*;

use crate::context::evaluation_context::{EvaluationContext, EvaluationContextView};
use crate::interpreter::rule::EvaluationRule;
use crate::interpreter::rule_evaluation::{RuleEvaluation, RuleEvaluationView};
use crate::interpreter::rules::minimal_body_equality::MinimalBodyEqualityRule;
use crate::interpreter::rules::vp_rule_0001::VpRule0001;
use crate::interpreter::rules::vp_rule_0002::VpRule0002;
use crate::interpreter::rules::vp_rule_0011::VpRule0011;

verus! {

/// The rules this library defines.
#[derive(Debug, Clone, Copy, PartialEq, Eq, Structural)]
pub enum BuiltinRule {
    VpRule0001,
    VpRule0002,
    VpRule0011,
    MinimalBodyEquality,
}

impl BuiltinRule {
    /// The evaluation the rule gives on a context.
    pub open spec fn spec_evaluate(self, ctx: EvaluationContextView) -> RuleEvaluationView {
        match self {
            BuiltinRule::VpRule0001 => VpRule0001::spec_evaluate(ctx),
            BuiltinRule::VpRule0002 => VpRule0002::spec_evaluate(ctx),
            BuiltinRule::VpRule0011 => VpRule0011::spec_evaluate(ctx),
            BuiltinRule::MinimalBodyEquality => MinimalBodyEqualityRule::spec_evaluate(ctx),
        }
    }
}

impl EvaluationRule for BuiltinRule {
    fn evaluate(&self, context: &EvaluationContext) -> (r: RuleEvaluation)
        ensures
            r@ == self.spec_evaluate(context@),
    {
        match self {
            BuiltinRule::VpRule0001 => VpRule0001.evaluate(context),
            BuiltinRule::VpRule0002 => VpRule0002.evaluate(context),
            BuiltinRule::VpRule0011 => VpRule0011.evaluate(context),
            BuiltinRule::MinimalBodyEquality => MinimalBodyEqualityRule.evaluate(context),
        }
    }
}

/// Which rule an entry of a rule set is.
#[derive(Debug, Clone, Copy, PartialEq, Eq, Structural)]
pub enum RuleKind {
    Builtin(BuiltinRule),
    /// A rule supplied by the caller, whose evaluations this library does not know.
    Custom,
}

/// The evaluations a run over `kinds` may take at position `i`: a built-in rule's
/// own evaluation; anything for a caller-supplied rule.
pub open spec fn evaluation_fits(kind: RuleKind, ctx: EvaluationContextView, e: RuleEvaluationView) -> bool {
    match kind {
        RuleKind::Builtin(rule) => e == rule.spec_evaluate(ctx),
        RuleKind::Custom => true,
    }
}

enum RuleList {
    Builtin(Vec<BuiltinRule>),
    Custom(Vec<Box<dyn EvaluationRule>>),
}

/// Owns a deterministic, ordered sequence of evaluation rules.
pub struct RuleSet {
    rules: RuleList,
}

impl View for RuleSet {
    type V = Seq<RuleKind>;

    closed spec fn view(&self) -> Seq<RuleKind> {
        match self.rules {
            RuleList::Builtin(rules) => rules@.map_values(|r: BuiltinRule| RuleKind::Builtin(r)),
            RuleList::Custom(rules) => Seq::new(rules@.len(), |i: int| RuleKind::Custom),
        }
    }
}

impl Default for RuleSet {
    fn default() -> (r: Self)
        ensures
            r@ == seq![RuleKind::Builtin(BuiltinRule::VpRule0002), RuleKind::Builtin(BuiltinRule::VpRule0001)],
    {
        RuleSet::platform_1()
    }
}

impl RuleSet {
    /// Body equality rule set: evidence binding, then the literal body match.
    pub fn platform_1() -> (r: Self)
        ensures
            r@ == seq![RuleKind::Builtin(BuiltinRule::VpRule0002), RuleKind::Builtin(BuiltinRule::VpRule0001)],
    {
        let mut rules: Vec<BuiltinRule> = Vec::new();
        rules.push(BuiltinRule::VpRule0002);
        rules.push(BuiltinRule::VpRule0001);
        let r = RuleSet { rules: RuleList::Builtin(rules) };
        assert(r@ =~= seq![RuleKind::Builtin(BuiltinRule::VpRule0002), RuleKind::Builtin(BuiltinRule::VpRule0001)]);
        r
    }

    /// Normalized text rule set: evidence binding, then the normalized body match.
    pub fn platform_1_3() -> (r: Self)
        ensures
            r@ == seq![RuleKind::Builtin(BuiltinRule::VpRule0002), RuleKind::Builtin(BuiltinRule::VpRule0011)],
    {
        let mut rules: Vec<BuiltinRule> = Vec::new();
        rules.push(BuiltinRule::VpRule0002);
        rules.push(BuiltinRule::VpRule0011);
        let r = RuleSet { rules: RuleList::Builtin(rules) };
        assert(r@ =~= seq![RuleKind::Builtin(BuiltinRule::VpRule0002), RuleKind::Builtin(BuiltinRule::VpRule0011)]);
        r
    }

    /// A rule set of caller-supplied rules, applied in the given order.
    pub fn from_rules(rules: Vec<Box<dyn EvaluationRule>>) -> (r: Self)
        ensures
            r@.len() == rules@.len(),
            forall|i: int| 0 <= i < r@.len() ==> r@[i] == RuleKind::Custom,
    {
        RuleSet { rules: RuleList::Custom(rules) }
    }

    /// Which rule each entry is, in application order.
    pub fn rules(&self) -> (r: Vec<RuleKind>)
        ensures
            r@ == self@,
    {
        let mut kinds: Vec<RuleKind> = Vec::new();
        let n = self.len();
        let mut i: usize = 0;
        while i < n
            invariant
                n == self@.len(),
                i <= n,
                kinds@ == self@.subrange(0, i as int),
            decreases n - i,
        {
            let kind = match &self.rules {
                RuleList::Builtin(rules) => RuleKind::Builtin(rules[i]),
                RuleList::Custom(_) => RuleKind::Custom,
            };
            kinds.push(kind);
            assert(self@.subrange(0, i + 1) == self@.subrange(0, i as int).push(kind));
            i = i + 1;
        }
        assert(self@.subrange(0, n as int) == self@);
        kinds
    }

    pub fn len(&self) -> (r: usize)
        ensures
            r == self@.len(),
    {
        match &self.rules {
            RuleList::Builtin(rules) => rules.len(),
            RuleList::Custom(rules) => rules.len(),
        }
    }

    pub fn is_empty(&self) -> (r: bool)
        ensures
            r == (self@.len() == 0),
    {
        self.len() == 0
    }

    /// Applies the rule at `index` to `context`.
    pub fn evaluate_rule(&self, index: usize, context: &EvaluationContext) -> (r: RuleEvaluation)
        requires
            index < self@.len(),
        ensures
            evaluation_fits(self@[index as int], context@, r@),
    {
        match &self.rules {
            RuleList::Builtin(rules) => rules[index].evaluate(context),
            RuleList::Custom(rules) => rules[index].evaluate(context),
        }
    }
}

} // verus!
