use vp_reference::{
    EvaluationContext, Interpreter, ReferenceError, Report, SpecificationContext, SpecificationLoadOptions, SpecificationLoader,
};

#[test]
fn workspace_crates_are_linkable() {
    let _ = (
        EvaluationContext::placeholder(),
        SpecificationContext::placeholder(),
        ReferenceError::placeholder(),
        Interpreter::placeholder(),
        Report::placeholder(),
        SpecificationLoader::new(),
        SpecificationLoadOptions::new("."),
    );
}
