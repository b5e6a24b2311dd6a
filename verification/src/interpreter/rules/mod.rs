//! Evaluation rules implementing normative protocol semantics.
pub mod minimal_body_equality;
pub mod vp_rule_0001;
pub mod vp_rule_0002;
pub mod vp_rule_0011;
