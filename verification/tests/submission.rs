use gpu_tour::commands::{Command, Rgba};
use gpu_tour::submission::{Action, Event, OutOfTurn, Phase, Submission};

const RED: Rgba = Rgba { red: 255, green: 0, blue: 0, alpha: 255 };

#[test]
fn steps_come_in_order() {
    let plan = gpu_tour::image_clear::plan(RED);
    let mut submission = Submission::new(plan.clone());
    assert_eq!(submission.phase(), Phase::Recording);
    assert_eq!(submission.next_action(), Action::Record(plan[0]));
    assert_eq!(submission.advance(Event::Recorded), Ok(()));
    assert_eq!(submission.next_action(), Action::Record(plan[1]));
    assert_eq!(submission.advance(Event::Recorded), Ok(()));
    assert_eq!(submission.next_action(), Action::Build);
    assert_eq!(submission.advance(Event::Built), Ok(()));
    assert_eq!(submission.phase(), Phase::Built);
    assert_eq!(submission.next_action(), Action::Submit);
    assert_eq!(submission.advance(Event::Submitted), Ok(()));
    assert_eq!(submission.phase(), Phase::Submitted);
    assert_eq!(submission.next_action(), Action::Wait);
    assert_eq!(submission.advance(Event::Signalled), Ok(()));
    assert_eq!(submission.phase(), Phase::Complete);
    assert_eq!(submission.next_action(), Action::Read);
}

#[test]
fn reading_is_allowed_only_after_the_signal() {
    let mut submission = Submission::new(gpu_tour::linear_copy::plan());
    assert!(!submission.may_read());
    submission.advance(Event::Recorded).unwrap();
    assert!(!submission.may_read());
    submission.advance(Event::Built).unwrap();
    assert!(!submission.may_read());
    submission.advance(Event::Submitted).unwrap();
    assert!(!submission.may_read());
    submission.advance(Event::Signalled).unwrap();
    assert!(submission.may_read());
}

#[test]
fn report_out_of_turn_is_refused_and_changes_nothing() {
    let plan = gpu_tour::linear_copy::plan();
    let mut submission = Submission::new(plan.clone());
    for event in [Event::Built, Event::Submitted, Event::Signalled] {
        assert_eq!(
            submission.advance(event),
            Err(OutOfTurn { due: Action::Record(plan[0]), reported: event })
        );
        assert_eq!(submission.phase(), Phase::Recording);
        assert_eq!(submission.next_action(), Action::Record(plan[0]));
    }
    submission.advance(Event::Recorded).unwrap();
    assert_eq!(
        submission.advance(Event::Recorded),
        Err(OutOfTurn { due: Action::Build, reported: Event::Recorded })
    );
    assert_eq!(
        submission.advance(Event::Submitted),
        Err(OutOfTurn { due: Action::Build, reported: Event::Submitted })
    );
}

#[test]
fn sequence_is_submitted_once() {
    let mut submission = Submission::new(gpu_tour::compute::plan());
    submission.advance(Event::Recorded).unwrap();
    submission.advance(Event::Built).unwrap();
    submission.advance(Event::Submitted).unwrap();
    assert_eq!(
        submission.advance(Event::Submitted),
        Err(OutOfTurn { due: Action::Wait, reported: Event::Submitted })
    );
    submission.advance(Event::Signalled).unwrap();
    assert_eq!(
        submission.advance(Event::Submitted),
        Err(OutOfTurn { due: Action::Read, reported: Event::Submitted })
    );
}

#[test]
fn nothing_is_accepted_after_completion() {
    let mut submission = Submission::new(Vec::new());
    submission.advance(Event::Built).unwrap();
    submission.advance(Event::Submitted).unwrap();
    submission.advance(Event::Signalled).unwrap();
    for event in [Event::Recorded, Event::Built, Event::Submitted, Event::Signalled] {
        assert_eq!(
            submission.advance(event),
            Err(OutOfTurn { due: Action::Read, reported: event })
        );
        assert!(submission.may_read());
    }
}

#[test]
fn empty_plan_is_built_at_once() {
    let submission = Submission::new(Vec::<Command>::new());
    assert_eq!(submission.next_action(), Action::Build);
}
