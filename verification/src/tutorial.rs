use vstd::prelude::*;

verus! {

/// Number of steps of the guided tour.
pub const STEP_COUNT: usize = 8;

/// The page a tour step navigates to when it is entered.
#[derive(Clone, Copy, Debug, PartialEq, Eq, Structural)]
pub enum TourPage {
    PeopleList,
    PersonNew,
}

/// Where the guided tour stands.
#[derive(Clone, Copy, Debug, PartialEq, Eq, Structural)]
pub enum TutorialStatus {
    InProgress(usize),
    Done,
}

/// One step of the tour: the translation keys of its title and body, and the
/// page it opens, if any.
pub struct StepDef {
    pub title_key: &'static str,
    pub body_key: &'static str,
    pub nav: Option<TourPage>,
}

/// The translation key of the title of step `i`.
pub open spec fn step_title(i: int) -> Seq<char> {
    if i == 0 {
        "tut_welcome_title"@
    } else if i == 1 {
        "tut_people_title"@
    } else if i == 2 {
        "tut_create_title"@
    } else if i == 3 {
        "tut_ocean_title"@
    } else if i == 4 {
        "tut_mot_bias_title"@
    } else if i == 5 {
        "tut_rep_pattern_title"@
    } else if i == 6 {
        "tut_compare_title"@
    } else {
        "tut_done_title"@
    }
}

/// The translation key of the body of step `i`.
pub open spec fn step_body(i: int) -> Seq<char> {
    if i == 0 {
        "tut_welcome_body"@
    } else if i == 1 {
        "tut_people_body"@
    } else if i == 2 {
        "tut_create_body"@
    } else if i == 3 {
        "tut_ocean_body"@
    } else if i == 4 {
        "tut_mot_bias_body"@
    } else if i == 5 {
        "tut_rep_pattern_body"@
    } else if i == 6 {
        "tut_compare_body"@
    } else {
        "tut_done_body"@
    }
}

/// The page step `i` opens.
pub open spec fn step_nav(i: int) -> Option<TourPage> {
    if i == 1 {
        Some(TourPage::PeopleList)
    } else if i == 2 {
        Some(TourPage::PersonNew)
    } else {
        None
    }
}

/// Step `i` of the tour; `None` past the last step.
pub fn step(i: usize) -> (r: Option<StepDef>)
    ensures
        i < STEP_COUNT <==> r is Some,
        r matches Some(d) ==> d.title_key@ == step_title(i as int) && d.body_key@ == step_body(
            i as int,
        ) && d.nav == step_nav(i as int),
{
    if i == 0 {
        Some(StepDef { title_key: "tut_welcome_title", body_key: "tut_welcome_body", nav: None })
    } else if i == 1 {
        Some(
            StepDef {
                title_key: "tut_people_title",
                body_key: "tut_people_body",
                nav: Some(TourPage::PeopleList),
            },
        )
    } else if i == 2 {
        Some(
            StepDef {
                title_key: "tut_create_title",
                body_key: "tut_create_body",
                nav: Some(TourPage::PersonNew),
            },
        )
    } else if i == 3 {
        Some(StepDef { title_key: "tut_ocean_title", body_key: "tut_ocean_body", nav: None })
    } else if i == 4 {
        Some(StepDef { title_key: "tut_mot_bias_title", body_key: "tut_mot_bias_body", nav: None })
    } else if i == 5 {
        Some(
            StepDef {
                title_key: "tut_rep_pattern_title",
                body_key: "tut_rep_pattern_body",
                nav: None,
            },
        )
    } else if i == 6 {
        Some(StepDef { title_key: "tut_compare_title", body_key: "tut_compare_body", nav: None })
    } else if i == 7 {
        Some(StepDef { title_key: "tut_done_title", body_key: "tut_done_body", nav: None })
    } else {
        None
    }
}

/// The step that follows step `i`, if the tour has one.
pub open spec fn next_of(i: int) -> Option<int> {
    if 0 <= i && i + 1 < STEP_COUNT {
        Some(i + 1)
    } else {
        None
    }
}

/// The step that precedes step `i`, if there is one.
pub open spec fn prev_of(i: int) -> Option<int> {
    if i <= 0 {
        None
    } else {
        Some(i - 1)
    }
}

/// Whether `step_idx` is the last step (or beyond it).
pub fn is_last_step(step_idx: usize) -> (r: bool)
    ensures
        r == (step_idx + 1 >= STEP_COUNT),
{
    step_idx >= STEP_COUNT - 1
}

/// The step after `step_idx`, if the tour has one.
pub fn next_step(step_idx: usize) -> (r: Option<usize>)
    ensures
        r matches Some(j) ==> next_of(step_idx as int) == Some(j as int),
        r is None ==> next_of(step_idx as int) is None,
{
    if step_idx < STEP_COUNT - 1 {
        Some(step_idx + 1)
    } else {
        None
    }
}

/// The step before `step_idx`, if there is one.
pub fn prev_step(step_idx: usize) -> (r: Option<usize>)
    ensures
        r matches Some(j) ==> prev_of(step_idx as int) == Some(j as int),
        r is None ==> prev_of(step_idx as int) is None,
{
    if step_idx == 0 {
        None
    } else {
        Some(step_idx - 1)
    }
}

/// What the tour does in answer to a button.
#[derive(Clone, Copy, Debug, PartialEq, Eq, Structural)]
pub enum TourAction {
    /// Record the tour as done and close it.
    Finish,
    /// Move to `step`, first opening `nav` when the step has a page.
    Goto { step: usize, nav: Option<TourPage> },
    /// Nothing happens.
    Stay,
}

/// The step shown for a status: the tour shows a step only while it is in
/// progress on an existing step.
pub fn shown_step(status: TutorialStatus) -> (r: Option<usize>)
    ensures
        r == (match status {
            TutorialStatus::InProgress(i) => if i < STEP_COUNT {
                Some(i)
            } else {
                None
            },
            TutorialStatus::Done => None,
        }),
{
    match status {
        TutorialStatus::InProgress(i) => if i < STEP_COUNT {
            Some(i)
        } else {
            None
        },
        TutorialStatus::Done => None,
    }
}

/// "Next" (or "Finish" on the last step): the last step finishes the tour;
/// any other step moves on to the following one and opens its page.
pub fn tour_next(step_idx: usize) -> (r: TourAction)
    ensures
        step_idx + 1 >= STEP_COUNT ==> r == TourAction::Finish,
        step_idx + 1 < STEP_COUNT ==> r == (TourAction::Goto {
            step: (step_idx + 1) as usize,
            nav: step_nav(step_idx + 1),
        }),
{
    if is_last_step(step_idx) {
        TourAction::Finish
    } else {
        match next_step(step_idx) {
            Some(next) => {
                let nav = match step(next) {
                    Some(d) => d.nav,
                    None => None,
                };
                TourAction::Goto { step: next, nav }
            },
            None => TourAction::Stay,
        }
    }
}

/// "Back": the first step stays; any other step returns to the previous one
/// and opens its page.
pub fn tour_back(step_idx: usize) -> (r: TourAction)
    ensures
        step_idx == 0 ==> r == TourAction::Stay,
        step_idx > 0 ==> r == (TourAction::Goto {
            step: (step_idx - 1) as usize,
            nav: if step_idx - 1 < STEP_COUNT {
                step_nav(step_idx - 1)
            } else {
                None
            },
        }),
{
    match prev_step(step_idx) {
        Some(prev) => {
            let nav = match step(prev) {
                Some(d) => d.nav,
                None => None,
            };
            TourAction::Goto { step: prev, nav }
        },
        None => TourAction::Stay,
    }
}

/// The status after an action: finishing ends the tour, moving shows the new
/// step, staying keeps the status.
pub fn status_after(status: TutorialStatus, action: TourAction) -> (r: TutorialStatus)
    ensures
        r == (match action {
            TourAction::Finish => TutorialStatus::Done,
            TourAction::Goto { step, nav } => TutorialStatus::InProgress(step),
            TourAction::Stay => status,
        }),
{
    match action {
        TourAction::Finish => TutorialStatus::Done,
        TourAction::Goto { step, nav } => TutorialStatus::InProgress(step),
        TourAction::Stay => status,
    }
}

/// Whether the tour was completed, as recorded on the device: the tour is
/// running from `active` while it is `Some`.
pub struct TutorialMark {
    pub active: Option<usize>,
}

/// Whether the tour is recorded as done.
pub fn is_done(mark: &TutorialMark) -> (r: bool)
    ensures
        r == (mark.active is None),
{
    mark.active.is_none()
}

/// Records the tour as done.
pub fn mark_done(mark: &mut TutorialMark)
    ensures
        final(mark).active is None,
{
    mark.active = None;
}

/// Forgets that the tour was done, so that it starts again from its first
/// step.
pub fn clear_mark(mark: &mut TutorialMark)
    ensures
        final(mark).active == Some(0usize),
{
    mark.active = Some(0);
}

/// Whether a stored flag records the tour as done: only the flag "1" does.
pub fn done_from_stored(stored: Option<&str>) -> (r: bool)
    ensures
        r == (match stored {
            Some(s) => s@ == "1"@,
            None => false,
        }),
{
    match stored {
        Some(s) => s.to_owned() == "1".to_owned(),
        None => false,
    }
}

/// Going forward then back, or back then forward, returns to the same step;
/// the last step is exactly the one that has no next step.
pub proof fn lemma_next_prev_inverse(i: int)
    requires
        0 <= i,
    ensures
        next_of(i) matches Some(j) ==> prev_of(j) == Some(i),
        (0 < i < STEP_COUNT) ==> (prev_of(i) matches Some(j) && next_of(j) == Some(i)),
        (next_of(i) is None) == (i + 1 >= STEP_COUNT),
{
}


/// Whether `body` is the body key that goes with the title key `title`:
/// the same key with "_body" in place of its final "_title".
pub open spec fn body_of_title(title: Seq<char>, body: Seq<char>) -> bool {
    &&& title.len() >= 6
    &&& title.subrange(title.len() - 6, title.len() as int) == "_title"@
    &&& body == title.subrange(0, title.len() - 6) + "_body"@
}

/// Every step of the tour shows the body that goes with its title, and no
/// two steps show the same body.
pub proof fn lemma_steps_pair_titles_and_bodies()
    ensures
        forall|i: int| 0 <= i < STEP_COUNT ==> body_of_title(#[trigger] step_title(i), step_body(i)),
        forall|i: int, j: int|
            0 <= i < STEP_COUNT && 0 <= j < STEP_COUNT && i != j ==> #[trigger] step_body(i) != #[trigger] step_body(j),
{
    reveal_strlit("tut_welcome_title");
    reveal_strlit("tut_welcome_body");
    reveal_strlit("tut_people_title");
    reveal_strlit("tut_people_body");
    reveal_strlit("tut_create_title");
    reveal_strlit("tut_create_body");
    reveal_strlit("tut_ocean_title");
    reveal_strlit("tut_ocean_body");
    reveal_strlit("tut_mot_bias_title");
    reveal_strlit("tut_mot_bias_body");
    reveal_strlit("tut_rep_pattern_title");
    reveal_strlit("tut_rep_pattern_body");
    reveal_strlit("tut_compare_title");
    reveal_strlit("tut_compare_body");
    reveal_strlit("tut_done_title");
    reveal_strlit("tut_done_body");
    reveal_strlit("_title");
    reveal_strlit("_body");
    assert(step_title(0).subrange(0, step_title(0).len() - 6) + "_body"@ =~= step_body(0));
    assert(step_title(0).subrange(step_title(0).len() - 6, step_title(0).len() as int) =~= "_title"@);
    assert(step_title(1).subrange(0, step_title(1).len() - 6) + "_body"@ =~= step_body(1));
    assert(step_title(1).subrange(step_title(1).len() - 6, step_title(1).len() as int) =~= "_title"@);
    assert(step_title(2).subrange(0, step_title(2).len() - 6) + "_body"@ =~= step_body(2));
    assert(step_title(2).subrange(step_title(2).len() - 6, step_title(2).len() as int) =~= "_title"@);
    assert(step_title(3).subrange(0, step_title(3).len() - 6) + "_body"@ =~= step_body(3));
    assert(step_title(3).subrange(step_title(3).len() - 6, step_title(3).len() as int) =~= "_title"@);
    assert(step_title(4).subrange(0, step_title(4).len() - 6) + "_body"@ =~= step_body(4));
    assert(step_title(4).subrange(step_title(4).len() - 6, step_title(4).len() as int) =~= "_title"@);
    assert(step_title(5).subrange(0, step_title(5).len() - 6) + "_body"@ =~= step_body(5));
    assert(step_title(5).subrange(step_title(5).len() - 6, step_title(5).len() as int) =~= "_title"@);
    assert(step_title(6).subrange(0, step_title(6).len() - 6) + "_body"@ =~= step_body(6));
    assert(step_title(6).subrange(step_title(6).len() - 6, step_title(6).len() as int) =~= "_title"@);
    assert(step_title(7).subrange(0, step_title(7).len() - 6) + "_body"@ =~= step_body(7));
    assert(step_title(7).subrange(step_title(7).len() - 6, step_title(7).len() as int) =~= "_title"@);
    assert(step_body(0).len() == 16);
    assert(step_body(1).len() == 15);
    assert(step_body(2).len() == 15);
    assert(step_body(3).len() == 14);
    assert(step_body(4).len() == 17);
    assert(step_body(5).len() == 20);
    assert(step_body(6).len() == 16);
    assert(step_body(7).len() == 13);
    assert(step_body(0)[4] == 'w' && step_body(6)[4] == 'c');
    assert(step_body(1)[4] == 'p' && step_body(2)[4] == 'c');
    assert forall|i: int| 0 <= i < STEP_COUNT implies body_of_title(#[trigger] step_title(i), step_body(i)) by {
        assert(i == 0 || i == 1 || i == 2 || i == 3 || i == 4 || i == 5 || i == 6 || i == 7);
    }
    assert forall|i: int, j: int|
        0 <= i < STEP_COUNT && 0 <= j < STEP_COUNT && i != j implies #[trigger] step_body(i) != #[trigger] step_body(j) by {
        assert(i == 0 || i == 1 || i == 2 || i == 3 || i == 4 || i == 5 || i == 6 || i == 7);
        assert(j == 0 || j == 1 || j == 2 || j == 3 || j == 4 || j == 5 || j == 6 || j == 7);
    }
}

} // verus!
