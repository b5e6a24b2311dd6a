//! Reference interpreter for claim/evidence verification: domain model,
//! evaluation rules, aggregation policies, traces and developer-facing reports.
pub mod cli;
pub mod context;
pub mod interpreter;
pub mod model;
pub mod report;
pub mod spec_input;
pub mod text;

pub use cli::error::{VerifyError, EXIT_SUCCESS, EXIT_USER_ERROR};
pub use cli::explain::{
    applied_rules_from_trace, build_explanation, evidence_summaries, EvidenceSummary, VerificationExplanation,
};
pub use cli::input::{build_evaluation_input, AssertionFile, ClaimFile, EvidenceContentFile, EvidenceFile};
pub use cli::output::{
    json_report, render_human, JsonReport, OutputFormat, TraceEventSummary, VerifyRenderInput,
};
pub use cli::serve::{HealthResponse, ServeError, ServeOptions, VerifyRequest, SERVICE_VERSION};
pub use cli::verify::{run_verify_documents, VerifyOptions, VerifyOutput};
pub use context::context_error::ContextBuildError;
pub use context::evaluation_context::{EvaluationContext, EvaluationContextBuilder, EvaluationOptions};
pub use context::evaluation_input::{EvaluationInput, EvaluationInputBuilder};
pub use context::reference_error::ReferenceError;
pub use context::specification::{SpecificationContext, SpecificationSummary};
pub use interpreter::evaluation_policy::{aggregate_all_required, all_required_aggregation_reason};
pub use interpreter::evaluator_run::{run_rule_set, RuleSetRun};
pub use interpreter::evaluators::body_equality::{BodyEqualityEvaluator, BODY_EQUALITY_ASSERTION_TYPE};
pub use interpreter::evaluators::normalized_text::{NormalizedTextEvaluator, NORMALIZED_TEXT_ASSERTION_TYPE};
pub use interpreter::evaluators::registry::{AssertionEvaluatorRegistry, MINIMAL_PROFILE_ASSERTION_TYPE};
pub use interpreter::evaluators::trait_def::AssertionEvaluator;
pub use interpreter::interpreter::Interpreter;
pub use interpreter::rule::EvaluationRule;
pub use interpreter::rule_evaluation::RuleEvaluation;
pub use interpreter::rule_set::{BuiltinRule, RuleKind, RuleSet};
pub use interpreter::rules::minimal_body_equality::{MinimalBodyEqualityRule, MINIMAL_BODY_EQUALITY_RULE_REFERENCE};
pub use interpreter::rules::vp_rule_0001::{VpRule0001, VP_RULE_0001_REFERENCE};
pub use interpreter::rules::vp_rule_0002::{VpRule0002, VP_RULE_0002_REFERENCE};
pub use interpreter::rules::vp_rule_0011::{VpRule0011, VP_RULE_0011_REFERENCE};
pub use interpreter::text_normalization::{
    is_normalization_whitespace, normalize_composed, normalize_text, try_normalize_text_bytes, NormalizationError,
};
pub use model::assertion::Assertion;
pub use model::build_error::BuildError;
pub use model::claim::{Claim, ClaimBuilder};
pub use model::evaluation_policy::EvaluationPolicy;
pub use model::evidence::{Evidence, EvidenceBuilder};
pub use model::evidence_content::EvidenceContent;
pub use model::evidence_set::{EvidenceSet, EvidenceSetBuilder};
pub use model::identifiers::{ClaimId, EvidenceId, RuleReference, SpecificationBinding, TraceEventId};
pub use model::metadata::{Metadata, MetadataBuilder};
pub use model::outcome::Outcome;
pub use model::trace::{Trace, TraceBuilder, TraceEvent};
pub use model::verification_result::{VerificationResult, VerificationResultBuilder};
pub use report::Report;
pub use spec_input::{SpecInput, SpecificationLoadOptions, SpecificationLoader};
