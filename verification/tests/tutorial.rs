use peoplemodeler::tutorial::{
    clear_mark, done_from_stored, is_done, is_last_step, mark_done, next_step, prev_step,
    shown_step, status_after, step, tour_back, tour_next, TourAction, TourPage, TutorialMark,
    TutorialStatus, STEP_COUNT,
};

#[test]
fn tutorial_mark_done_implies_is_done() {
    let mut m = TutorialMark { active: Some(3) };
    mark_done(&mut m);
    assert!(is_done(&m));
}

#[test]
fn tutorial_clear_mark_implies_not_done() {
    let mut m = TutorialMark { active: None };
    mark_done(&mut m);
    clear_mark(&mut m);
    assert!(!is_done(&m));
}

#[test]
fn tutorial_is_done_false_after_clear() {
    let mut m = TutorialMark { active: None };
    clear_mark(&mut m);
    assert!(!is_done(&m));
}

#[test]
fn tutorial_is_last_step_boundary() {
    assert!(!is_last_step(0));
    assert!(!is_last_step(STEP_COUNT - 2));
    assert!(is_last_step(STEP_COUNT - 1));
}

#[test]
fn tutorial_next_step_boundary() {
    assert_eq!(next_step(0), Some(1));
    assert_eq!(next_step(STEP_COUNT - 2), Some(STEP_COUNT - 1));
    assert_eq!(next_step(STEP_COUNT - 1), None);
}

#[test]
fn tutorial_prev_step_boundary() {
    assert_eq!(prev_step(0), None);
    assert_eq!(prev_step(1), Some(0));
    assert_eq!(prev_step(STEP_COUNT - 1), Some(STEP_COUNT - 2));
}

#[test]
fn tour_has_eight_steps_with_their_keys() {
    assert_eq!(STEP_COUNT, 8);
    let first = step(0).unwrap();
    assert_eq!(first.title_key, "tut_welcome_title");
    assert_eq!(first.body_key, "tut_welcome_body");
    assert_eq!(first.nav, None);
    assert_eq!(step(1).unwrap().nav, Some(TourPage::PeopleList));
    assert_eq!(step(2).unwrap().nav, Some(TourPage::PersonNew));
    assert_eq!(step(7).unwrap().title_key, "tut_done_title");
    assert!(step(8).is_none());
}

#[test]
fn next_and_back_move_and_navigate() {
    assert_eq!(tour_next(0), TourAction::Goto { step: 1, nav: Some(TourPage::PeopleList) });
    assert_eq!(tour_next(3), TourAction::Goto { step: 4, nav: None });
    assert_eq!(tour_next(7), TourAction::Finish);
    assert_eq!(tour_back(0), TourAction::Stay);
    assert_eq!(tour_back(3), TourAction::Goto { step: 2, nav: Some(TourPage::PersonNew) });
}

#[test]
fn status_follows_actions() {
    let s = TutorialStatus::InProgress(2);
    assert_eq!(status_after(s, TourAction::Finish), TutorialStatus::Done);
    assert_eq!(status_after(s, TourAction::Stay), s);
    assert_eq!(
        status_after(s, TourAction::Goto { step: 3, nav: None }),
        TutorialStatus::InProgress(3)
    );
    assert_eq!(shown_step(TutorialStatus::InProgress(9)), None);
    assert_eq!(shown_step(TutorialStatus::Done), None);
    assert_eq!(shown_step(TutorialStatus::InProgress(4)), Some(4));
}

#[test]
fn next_then_back_returns() {
    for i in 0..STEP_COUNT - 1 {
        assert_eq!(prev_step(next_step(i).unwrap()), Some(i));
    }
}

#[test]
fn stored_done_flag() {
    assert!(done_from_stored(Some("1")));
    assert!(!done_from_stored(Some("0")));
    assert!(!done_from_stored(None));
}
