use system_index::terminal::{Session, SessionAction, Step};

/// Runs a session to its end. `fails` names the steps that fail. Tells the
/// steps that were performed, the report, and the session at its end.
fn run_session(fails: &[Step]) -> (Vec<Step>, Option<Step>, Session) {
    let (mut session, mut action) = Session::begin();
    let mut performed: Vec<Step> = Vec::new();
    loop {
        match action {
            SessionAction::Perform(step) => {
                performed.push(step);
                assert!(performed.len() <= 8, "a session has at most eight steps");
                action = session.advance(!fails.contains(&step));
            }
            SessionAction::Finish(report) => return (performed, report, session),
        }
    }
}

fn assert_released(session: &Session) {
    assert!(!session.raw_mode);
    assert!(!session.alternate_screen);
    assert!(!session.mouse_capture);
    assert!(!session.cursor_hidden);
    assert_eq!(session.pending, None);
}

#[test]
fn session_without_failure() {
    let (performed, report, session) = run_session(&[]);
    assert_eq!(
        performed,
        vec![
            Step::EnableRawMode,
            Step::EnterAlternateScreen,
            Step::EnableMouseCapture,
            Step::RunLoop,
            Step::ShowCursor,
            Step::DisableMouseCapture,
            Step::LeaveAlternateScreen,
            Step::DisableRawMode,
        ]
    );
    assert_eq!(report, None);
    assert_released(&session);
}

#[test]
fn modes_are_held_while_the_loop_runs() {
    let (mut session, _) = Session::begin();
    assert_eq!(session.advance(true), SessionAction::Perform(Step::EnterAlternateScreen));
    assert!(session.raw_mode);
    assert_eq!(session.advance(true), SessionAction::Perform(Step::EnableMouseCapture));
    assert!(session.alternate_screen);
    assert_eq!(session.advance(true), SessionAction::Perform(Step::RunLoop));
    assert!(session.raw_mode && session.alternate_screen && session.mouse_capture);
    assert!(session.cursor_hidden);
    assert_eq!(session.failure, None);
}

#[test]
fn teardown_runs_after_a_failure_in_the_loop() {
    let (performed, report, session) = run_session(&[Step::RunLoop]);
    assert_eq!(
        performed[4..],
        [
            Step::ShowCursor,
            Step::DisableMouseCapture,
            Step::LeaveAlternateScreen,
            Step::DisableRawMode,
        ]
    );
    assert_eq!(report, Some(Step::RunLoop));
    assert_released(&session);
}

#[test]
fn teardown_goes_on_after_a_release_step_fails() {
    let (performed, report, session) = run_session(&[Step::ShowCursor, Step::LeaveAlternateScreen]);
    assert_eq!(performed.len(), 8);
    assert_eq!(performed[5], Step::DisableMouseCapture);
    assert_eq!(performed[6], Step::LeaveAlternateScreen);
    assert_eq!(performed[7], Step::DisableRawMode);
    assert_eq!(report, Some(Step::ShowCursor));
    assert_released(&session);
}

#[test]
fn first_teardown_failure_is_reported_before_the_loop_failure() {
    let (performed, report, session) =
        run_session(&[Step::RunLoop, Step::DisableMouseCapture, Step::DisableRawMode]);
    assert_eq!(performed.len(), 8);
    assert_eq!(report, Some(Step::DisableMouseCapture));
    assert_released(&session);
}

#[test]
fn last_release_step_can_be_the_one_reported() {
    let (_, report, session) = run_session(&[Step::DisableRawMode]);
    assert_eq!(report, Some(Step::DisableRawMode));
    assert_released(&session);
}

#[test]
fn failure_to_take_raw_mode_ends_the_session() {
    let (performed, report, session) = run_session(&[Step::EnableRawMode]);
    assert_eq!(performed, vec![Step::EnableRawMode]);
    assert_eq!(report, Some(Step::EnableRawMode));
    assert_released(&session);
}

#[test]
fn failure_to_enter_the_screen_releases_raw_mode() {
    let (performed, report, session) = run_session(&[Step::EnterAlternateScreen]);
    assert_eq!(
        performed,
        vec![Step::EnableRawMode, Step::EnterAlternateScreen, Step::DisableRawMode]
    );
    assert_eq!(report, Some(Step::EnterAlternateScreen));
    assert_released(&session);
}

#[test]
fn failure_to_capture_the_mouse_releases_screen_and_raw_mode() {
    let (performed, report, session) =
        run_session(&[Step::EnableMouseCapture, Step::LeaveAlternateScreen]);
    assert_eq!(
        performed,
        vec![
            Step::EnableRawMode,
            Step::EnterAlternateScreen,
            Step::EnableMouseCapture,
            Step::LeaveAlternateScreen,
            Step::DisableRawMode,
        ]
    );
    assert_eq!(report, Some(Step::EnableMouseCapture));
    assert_released(&session);
}

#[test]
fn every_pattern_of_failures_releases_everything() {
    let steps = [
        Step::EnableRawMode,
        Step::EnterAlternateScreen,
        Step::EnableMouseCapture,
        Step::RunLoop,
        Step::ShowCursor,
        Step::DisableMouseCapture,
        Step::LeaveAlternateScreen,
        Step::DisableRawMode,
    ];
    let mut pattern: usize = 0;
    while pattern < 256 {
        let mut fails: Vec<Step> = Vec::new();
        for (bit, step) in steps.iter().enumerate() {
            if pattern & (1 << bit) != 0 {
                fails.push(*step);
            }
        }
        let (performed, report, session) = run_session(&fails);
        assert_released(&session);
        let failed: Vec<Step> =
            performed.iter().copied().filter(|step| fails.contains(step)).collect();
        assert_eq!(report.is_some(), !failed.is_empty());
        let ran = performed.contains(&Step::RunLoop);
        assert_eq!(ran, !fails.contains(&steps[0]) && !fails.contains(&steps[1])
            && !fails.contains(&steps[2]));
        if performed.contains(&Step::EnterAlternateScreen) {
            assert!(performed.contains(&Step::DisableRawMode));
        }
        if performed.contains(&Step::EnableMouseCapture) {
            assert!(performed.contains(&Step::LeaveAlternateScreen));
        }
        if ran {
            assert!(performed.contains(&Step::ShowCursor));
            assert!(performed.contains(&Step::DisableMouseCapture));
        }
        pattern += 1;
    }
}

#[test]
fn a_finished_session_stays_finished() {
    let (_, _, mut session) = run_session(&[Step::RunLoop]);
    assert_eq!(session.advance(true), SessionAction::Finish(Some(Step::RunLoop)));
    assert_eq!(session.advance(false), SessionAction::Finish(Some(Step::RunLoop)));
    assert_released(&session);
}
