//! Verification logic and evaluation flow.
pub mod evaluation_policy;
pub mod evaluator_run;
pub mod evaluators;
pub mod interpreter;
pub mod rule;
pub mod rule_evaluation;
pub mod rule_set;
pub mod rules;
pub mod text_normalization;
pub mod unicode;
