use vp_reference::{aggregate_all_required, Outcome};

#[test]
fn empty_set_is_indeterminate() {
    assert_eq!(aggregate_all_required(&[]), Outcome::Indeterminate);
}

#[test]
fn all_satisfied_is_satisfied() {
    assert_eq!(aggregate_all_required(&[Outcome::Satisfied, Outcome::Satisfied]), Outcome::Satisfied);
}

#[test]
fn any_not_satisfied_dominates() {
    assert_eq!(aggregate_all_required(&[Outcome::Satisfied, Outcome::NotSatisfied]), Outcome::NotSatisfied);
    assert_eq!(aggregate_all_required(&[Outcome::NotSatisfied, Outcome::Satisfied]), Outcome::NotSatisfied);
}

#[test]
fn indeterminate_without_not_satisfied() {
    assert_eq!(aggregate_all_required(&[Outcome::Satisfied, Outcome::Indeterminate]), Outcome::Indeterminate);
}
