use backend::classifier::{
    choose_stage, classify, classify_storage, matching_stage, reports_violation_of, stage_for_cause,
    ResultExt, Stage,
};
use backend::constraint::ConstraintSet;
use backend::error::{Diagnostic, Error, InternalError, StorageError};

type Render = Box<dyn Fn(&StorageError) -> Error>;

const NAME_AND_AGE: &str = "UNIQUE constraint failed: person.NAME, person.AGE";

fn violation(message: &str) -> StorageError {
    StorageError {
        database_message: Some(message.to_string()),
        detail: format!("Database(SqliteError {{ code: 2067, message: {:?} }})", message),
    }
}

fn unreported(detail: &str) -> StorageError {
    StorageError { database_message: None, detail: detail.to_string() }
}

fn refusal(message: &str) -> Error {
    Error::unprocessable_entity(vec![("name".to_string(), message.to_string())])
}

fn stage(names: Vec<&'static str>, message: &'static str) -> Stage<Render> {
    Stage { constraints: ConstraintSet::new(names), render: Box::new(move |_cause| refusal(message)) }
}

fn message_of(outcome: Result<u32, Error>) -> String {
    match outcome {
        Err(Error::UnprocessableEntity { errors }) => {
            let messages = errors.messages("name").unwrap();
            assert_eq!(messages.len(), 1);
            messages[0].clone()
        }
        other => panic!("not a refused request body: {:?}", other),
    }
}

#[test]
fn the_stage_with_exactly_the_violated_constraints_answers() {
    let stages = vec![stage(vec!["person.NAME", "person.AGE"], "combo")];
    let outcome: Result<u32, Error> = Err(Error::Sqlx(violation(NAME_AND_AGE)));
    assert_eq!(message_of(classify(outcome, &stages)), "combo");
}

#[test]
fn a_stage_with_a_part_of_the_violated_constraints_does_not_answer() {
    let stages = vec![stage(vec!["person.NAME"], "name")];
    let outcome: Result<u32, Error> = Err(Error::Sqlx(violation(NAME_AND_AGE)));
    let classified = classify(outcome, &stages);
    assert!(matches!(
        classified,
        Err(Error::Sqlx(ref cause)) if cause.database_message.as_deref() == Some(NAME_AND_AGE)
    ));
}

#[test]
fn a_stage_with_more_than_the_violated_constraints_does_not_answer() {
    let stages = vec![stage(vec!["person.NAME", "person.AGE"], "combo")];
    let outcome: Result<u32, Error> =
        Err(Error::Sqlx(violation("UNIQUE constraint failed: person.NAME")));
    assert!(matches!(classify(outcome, &stages), Err(Error::Sqlx(_))));
}

#[test]
fn the_order_of_stages_does_not_let_a_part_win() {
    let stages = vec![stage(vec!["person.NAME"], "name"), stage(vec!["person.NAME", "person.AGE"], "combo")];
    let outcome: Result<u32, Error> = Err(Error::Sqlx(violation(NAME_AND_AGE)));
    assert_eq!(message_of(classify(outcome, &stages)), "combo");
    assert_eq!(choose_stage(&Error::Sqlx(violation(NAME_AND_AGE)), &stages), Some(1));
    let outcome: Result<u32, Error> =
        Err(Error::Sqlx(violation("UNIQUE constraint failed: person.NAME")));
    assert_eq!(message_of(classify(outcome, &stages)), "name");
}

#[test]
fn among_equal_sets_the_first_stage_answers() {
    let stages = vec![
        stage(vec!["person.AGE"], "age"),
        stage(vec!["person.AGE", "person.NAME"], "first"),
        stage(vec!["person.NAME", "person.AGE"], "second"),
    ];
    let outcome: Result<u32, Error> = Err(Error::Sqlx(violation(NAME_AND_AGE)));
    assert_eq!(message_of(classify(outcome, &stages)), "first");
    let names = ConstraintSet::new(vec!["person.NAME", "person.AGE"]);
    assert_eq!(matching_stage(&names, &stages), Some(1));
    assert_eq!(matching_stage(&ConstraintSet::new(vec!["person.AGE"]), &stages), Some(0));
    assert_eq!(matching_stage(&ConstraintSet::new(vec!["person.NAME"]), &stages), None);
    assert_eq!(matching_stage(&ConstraintSet::new(vec![]), &stages), None);
}

#[test]
fn the_renderer_gets_the_cause() {
    let render: Render = Box::new(|cause| {
        Error::unprocessable_entity(vec![(
            "name".to_string(),
            cause.database_message.clone().unwrap_or_default(),
        )])
    });
    let stages = vec![Stage { constraints: ConstraintSet::new(vec!["person.NAME", "person.AGE"]), render }];
    let outcome: Result<u32, Error> = Err(Error::Sqlx(violation(NAME_AND_AGE)));
    assert_eq!(message_of(classify(outcome, &stages)), NAME_AND_AGE);
}

#[test]
fn a_success_passes_through() {
    let stages = vec![stage(vec!["person.NAME"], "name")];
    assert!(matches!(classify(Ok(7u32), &stages), Ok(7)));
    let mut sink: Vec<Diagnostic> = Vec::new();
    assert!(matches!(classify_storage(Ok(7u32), &stages, &mut sink), Ok(7)));
    assert!(sink.is_empty());
    let passed: Result<u32, Error> = Ok(7);
    assert!(matches!(passed.on_unique_constraint_error(vec!["person.NAME"], |_| refusal("name")), Ok(7)));
}

#[test]
fn a_message_without_the_prefix_stays_a_storage_failure() {
    let stages = vec![stage(vec!["person.NAME", "person.AGE"], "combo"), stage(vec![], "nothing")];
    for message in [
        "person.NAME, person.AGE",
        "constraint failed: person.NAME, person.AGE",
        "error: UNIQUE constraint failed: person.NAME, person.AGE",
        "",
    ] {
        let outcome: Result<u32, Error> = Err(Error::Sqlx(violation(message)));
        let classified = classify(outcome, &stages);
        assert!(matches!(
            classified,
            Err(Error::Sqlx(ref cause)) if cause.database_message.as_deref() == Some(message)
        ));
        assert_eq!(stage_for_cause(&violation(message), &stages), None);
    }
}

#[test]
fn a_failure_that_the_engine_did_not_report_passes_unread() {
    let stages = vec![stage(vec!["person.NAME", "person.AGE"], "combo")];
    let cause = unreported("PoolTimedOut: UNIQUE constraint failed: person.NAME, person.AGE");
    let outcome: Result<u32, Error> = Err(Error::Sqlx(cause));
    let classified = classify(outcome, &stages);
    assert!(matches!(
        classified,
        Err(Error::Sqlx(ref cause)) if cause.database_message.is_none()
            && cause.detail == "PoolTimedOut: UNIQUE constraint failed: person.NAME, person.AGE"
    ));
    let outcome: Result<u32, Error> = Err(Error::Anyhow(InternalError { detail: NAME_AND_AGE.to_string() }));
    assert!(matches!(classify(outcome, &stages), Err(Error::Anyhow(ref cause)) if cause.detail == NAME_AND_AGE));
}

#[test]
fn what_was_classified_stays_as_it_is() {
    let stages = vec![stage(vec!["person.NAME", "person.AGE"], "combo")];
    let outcome: Result<u32, Error> = Err(Error::Sqlx(violation(NAME_AND_AGE)));
    let once = classify(outcome, &stages);
    let twice = classify(once, &stages);
    assert_eq!(message_of(twice), "combo");
    let refused: Result<u32, Error> = Err(refusal("already refused"));
    assert_eq!(message_of(classify(refused, &stages)), "already refused");
    for plain in [Error::Unauthorized, Error::Forbidden, Error::NotFound] {
        let code = plain.status_code();
        let outcome: Result<u32, Error> = Err(plain);
        match classify(outcome, &stages) {
            Err(same) => assert_eq!(same.status_code(), code),
            Ok(value) => panic!("a success: {}", value),
        }
    }
}

#[test]
fn a_raw_failure_is_reported_once_when_no_stage_answers() {
    let stages = vec![stage(vec!["person.NAME"], "name")];
    let mut sink: Vec<Diagnostic> = Vec::new();
    let cause = violation(NAME_AND_AGE);
    let detail = cause.detail.clone();
    let classified: Result<u32, Error> = classify_storage(Err(cause), &stages, &mut sink);
    assert!(matches!(classified, Err(Error::Sqlx(ref kept)) if kept.detail == detail));
    assert_eq!(sink.len(), 1);
    assert!(matches!(&sink[0], Diagnostic::Storage(reported) if *reported == detail));

    let classified: Result<u32, Error> =
        classify_storage(Err(unreported("connection refused")), &stages, &mut sink);
    assert!(matches!(classified, Err(Error::Sqlx(_))));
    assert_eq!(sink.len(), 2);
    assert!(matches!(&sink[1], Diagnostic::Storage(reported) if reported == "connection refused"));
}

#[test]
fn a_raw_failure_is_not_reported_when_a_stage_answers() {
    let stages = vec![stage(vec!["person.NAME"], "name"), stage(vec!["person.AGE", "person.NAME"], "combo")];
    let mut sink: Vec<Diagnostic> = Vec::new();
    let classified: Result<u32, Error> = classify_storage(Err(violation(NAME_AND_AGE)), &stages, &mut sink);
    assert_eq!(message_of(classified), "combo");
    assert!(sink.is_empty());
}

#[test]
fn one_stage_at_a_call_rewrites_only_its_own_violation() {
    let outcome: Result<u32, Error> = Err(Error::Sqlx(violation(NAME_AND_AGE)));
    let classified = outcome
        .on_unique_constraint_error(vec!["person.NAME"], |_| refusal("name"))
        .on_unique_constraint_error(vec!["person.NAME", "person.AGE"], |_| refusal("combo"));
    assert_eq!(message_of(classified), "combo");

    let outcome: Result<u32, Error> = Err(Error::Sqlx(violation(NAME_AND_AGE)));
    let classified = outcome
        .on_unique_constraint_error(vec!["person.AGE", "person.NAME"], |_| refusal("combo"))
        .on_unique_constraint_error(vec!["person.NAME", "person.AGE"], |_| refusal("later"));
    assert_eq!(message_of(classified), "combo");

    let outcome: Result<u32, Error> = Err(Error::Sqlx(violation(NAME_AND_AGE)));
    let classified = outcome.on_unique_constraint_error(vec!["person.NAME"], |_| refusal("name"));
    assert!(matches!(classified, Err(Error::Sqlx(_))));

    let outcome: Result<u32, Error> = Err(Error::Sqlx(unreported(NAME_AND_AGE)));
    let classified =
        outcome.on_unique_constraint_error(vec!["person.NAME", "person.AGE"], |_| refusal("combo"));
    assert!(matches!(classified, Err(Error::Sqlx(_))));
}

#[test]
fn a_cause_reports_the_violation_of_exactly_its_constraints() {
    let cause = violation(NAME_AND_AGE);
    assert!(reports_violation_of(&cause, &ConstraintSet::new(vec!["person.AGE", "person.NAME"])));
    assert!(!reports_violation_of(&cause, &ConstraintSet::new(vec!["person.NAME"])));
    assert!(!reports_violation_of(&cause, &ConstraintSet::new(vec!["person.NAME", "person.AGE", "person.ID"])));
    assert!(!reports_violation_of(&cause, &ConstraintSet::new(vec![])));
    assert!(!reports_violation_of(&unreported(NAME_AND_AGE), &ConstraintSet::new(vec!["person.AGE", "person.NAME"])));
}
