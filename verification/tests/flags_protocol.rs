use comedilib::Bitfield;
use comedilib::CommandTestResult;
use comedilib::ValidationAction;
use comedilib::ValidationBudget;
use comedilib::SDF;

#[test]
fn combined_flag_tests_as_set() {
    let mut query = SDF::new(0);
    query.set(SDF::ground());
    let live = SDF::ground();
    assert!(live.is_set(query));
    let mut query = SDF::new(0);
    query.set(SDF::ground());
    assert!(query.is_set(SDF::ground()));
}

#[test]
fn disjoint_flag_tests_as_clear() {
    let mut query = SDF::new(0);
    query.set(SDF::ground());
    assert!(!query.is_set(SDF::common()));
    assert!(!query.is_set(SDF::lsampl()));
}

#[test]
fn composite_query_sees_any_of_its_bits() {
    fn ground_or_common() -> SDF {
        let mut query = SDF::new(0);
        query.set(SDF::ground());
        query.set(SDF::common());
        query
    }
    let ground_only = SDF::ground();
    assert!(ground_only.is_set(ground_or_common()));
    let common_only = SDF::common();
    assert!(common_only.is_set(ground_or_common()));
    let diff_only = SDF::diff();
    assert!(!diff_only.is_set(ground_or_common()));
}

#[test]
fn is_set_matches_raw_word() {
    let live = SDF::new(0x10000001);
    assert!(live.is_set(SDF::busy()));
    assert!(live.is_set(SDF::lsampl()));
    assert!(!live.is_set(SDF::locked()));
    assert!(!live.is_set(SDF::packed()));
}

#[test]
fn acceptance_ends_the_loop_at_once() {
    let mut budget = ValidationBudget::new(5);
    let action = budget.step(CommandTestResult::Accepted);
    assert_eq!(action, ValidationAction::Accept);
    assert_eq!(budget.remaining(), 5);
}

#[test]
fn non_acceptance_consumes_the_budget() {
    let mut budget = ValidationBudget::new(2);
    assert_eq!(
        budget.step(CommandTestResult::ArgumentRequiredAdjustment),
        ValidationAction::Retry
    );
    assert_eq!(budget.remaining(), 1);
    assert_eq!(
        budget.step(CommandTestResult::ArgumentOutOfRange),
        ValidationAction::Retry
    );
    assert_eq!(budget.remaining(), 0);
    assert_eq!(
        budget.step(CommandTestResult::ChanlistUnsupported),
        ValidationAction::GiveUp
    );
    assert_eq!(budget.remaining(), 0);
}

#[test]
fn exhausted_budget_still_accepts() {
    let mut budget = ValidationBudget::new(0);
    assert_eq!(
        budget.step(CommandTestResult::TriggerUnsupported),
        ValidationAction::GiveUp
    );
    assert_eq!(budget.step(CommandTestResult::Accepted), ValidationAction::Accept);
}
