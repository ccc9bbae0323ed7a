//! The terminal session: which steps take the terminal, which steps give it
//! back, in which order, and which failure is reported in the end.
//!
//! The session performs no step itself. It hands out one step at a time;
//! the program performs it and comes back with its outcome. Whatever fails,
//! every mode of the terminal that was taken gets its release step, in the
//! reverse of the order in which the modes were taken.

use vstd::prelude::*;

verus! {

/// One step of a terminal session.
#[derive(Debug, Clone, Copy, PartialEq, Eq, Structural)]
pub enum Step {
    /// Take the terminal: raw input.
    EnableRawMode,
    /// Take the terminal: the alternate screen.
    EnterAlternateScreen,
    /// Take the terminal: mouse capture.
    EnableMouseCapture,
    /// Run the event loop, which hides the cursor while it draws.
    RunLoop,
    /// Give the terminal back: the cursor.
    ShowCursor,
    /// Give the terminal back: mouse capture.
    DisableMouseCapture,
    /// Give the terminal back: the alternate screen.
    LeaveAlternateScreen,
    /// Give the terminal back: raw input.
    DisableRawMode,
}

/// What the program has to do next.
#[derive(Debug, Clone, Copy, PartialEq, Eq, Structural)]
pub enum SessionAction {
    /// Perform this step and come back with its outcome.
    Perform(Step),
    /// The session has ended. Where a step is named, the session failed,
    /// and the failure of that step is the one to report.
    Finish(Option<Step>),
}

/// The state of a terminal session.
#[derive(Debug, Clone, Copy, PartialEq, Eq, Structural)]
pub struct Session {
    /// Raw input was taken, and its release has not been tried yet.
    pub raw_mode: bool,
    /// The alternate screen was taken, and its release has not been tried
    /// yet.
    pub alternate_screen: bool,
    /// Mouse capture was taken, and its release has not been tried yet.
    pub mouse_capture: bool,
    /// The cursor may be hidden, and showing it has not been tried yet.
    pub cursor_hidden: bool,
    /// The step that was handed out last, while its outcome is awaited.
    pub pending: Option<Step>,
    /// The step whose failure is to be reported, if a step has failed.
    pub failure: Option<Step>,
}

impl Session {
    /// Whether a mode of the terminal is still held.
    pub open spec fn holds_any(self) -> bool {
        self.raw_mode || self.alternate_screen || self.mouse_capture || self.cursor_hidden
    }

    /// The state of a session before its first step.
    pub open spec fn spec_begin() -> Session {
        Session {
            raw_mode: false,
            alternate_screen: false,
            mouse_capture: false,
            cursor_hidden: false,
            pending: Some(Step::EnableRawMode),
            failure: None,
        }
    }

    /// The state in which the event loop runs: every mode is held, and
    /// nothing has failed.
    pub open spec fn spec_running() -> Session {
        Session {
            raw_mode: true,
            alternate_screen: true,
            mouse_capture: true,
            cursor_hidden: true,
            pending: Some(Step::RunLoop),
            failure: None,
        }
    }

    /// The state after the outcome of the pending step was taken in, before
    /// the next step is chosen.
    ///
    /// A step that takes a mode and succeeds marks the mode as held; with
    /// the last of them the cursor counts as hidden, since the event loop
    /// is about to draw. A release step, however it ends, marks its mode as
    /// no longer held. The failure to report is the first failure of a step
    /// that takes a mode; else the first failure of a release step; else
    /// the failure of the event loop.
    pub open spec fn settled(self, succeeded: bool) -> Session {
        match self.pending {
            Some(Step::EnableRawMode) => if succeeded {
                Session { raw_mode: true, pending: None, ..self }
            } else {
                Session { failure: Some(Step::EnableRawMode), pending: None, ..self }
            },
            Some(Step::EnterAlternateScreen) => if succeeded {
                Session { alternate_screen: true, pending: None, ..self }
            } else {
                Session { failure: Some(Step::EnterAlternateScreen), pending: None, ..self }
            },
            Some(Step::EnableMouseCapture) => if succeeded {
                Session { mouse_capture: true, cursor_hidden: true, pending: None, ..self }
            } else {
                Session { failure: Some(Step::EnableMouseCapture), pending: None, ..self }
            },
            Some(Step::RunLoop) => if succeeded {
                Session { pending: None, ..self }
            } else {
                Session { failure: Some(Step::RunLoop), pending: None, ..self }
            },
            Some(Step::ShowCursor) => Session {
                cursor_hidden: false,
                failure: self.failure_after_release(Step::ShowCursor, succeeded),
                pending: None,
                ..self
            },
            Some(Step::DisableMouseCapture) => Session {
                mouse_capture: false,
                failure: self.failure_after_release(Step::DisableMouseCapture, succeeded),
                pending: None,
                ..self
            },
            Some(Step::LeaveAlternateScreen) => Session {
                alternate_screen: false,
                failure: self.failure_after_release(Step::LeaveAlternateScreen, succeeded),
                pending: None,
                ..self
            },
            Some(Step::DisableRawMode) => Session {
                raw_mode: false,
                failure: self.failure_after_release(Step::DisableRawMode, succeeded),
                pending: None,
                ..self
            },
            None => self,
        }
    }

    /// The failure to report after a release step: the failure of that step
    /// where it failed and nothing but the event loop had failed before it,
    /// else the failure that was to be reported before.
    pub open spec fn failure_after_release(self, step: Step, succeeded: bool) -> Option<Step> {
        if !succeeded && (self.failure is None || self.failure == Some(Step::RunLoop)) {
            Some(step)
        } else {
            self.failure
        }
    }

    /// The step that follows a step that took a mode, where that step
    /// succeeded: the next mode, or the event loop.
    pub open spec fn step_after(step: Step) -> Option<Step> {
        match step {
            Step::EnableRawMode => Some(Step::EnterAlternateScreen),
            Step::EnterAlternateScreen => Some(Step::EnableMouseCapture),
            Step::EnableMouseCapture => Some(Step::RunLoop),
            _ => None,
        }
    }

    /// The release step that is due: that of the mode that was taken last
    /// among those still held, if a mode is still held.
    pub open spec fn release_due(self) -> Option<Step> {
        if self.cursor_hidden {
            Some(Step::ShowCursor)
        } else if self.mouse_capture {
            Some(Step::DisableMouseCapture)
        } else if self.alternate_screen {
            Some(Step::LeaveAlternateScreen)
        } else if self.raw_mode {
            Some(Step::DisableRawMode)
        } else {
            None
        }
    }

    /// The step that comes after the outcome of the pending step: the next
    /// step of taking the terminal, while that goes well; else the release
    /// step that is due; and none where no mode is held any more.
    pub open spec fn step_due(self, succeeded: bool) -> Option<Step> {
        if succeeded && self.pending is Some && Self::step_after(self.pending->0) is Some {
            Self::step_after(self.pending->0)
        } else {
            self.settled(succeeded).release_due()
        }
    }

    /// The state after the outcome of the pending step, with the next step
    /// handed out.
    pub open spec fn spec_advance(self, succeeded: bool) -> Session {
        Session { pending: self.step_due(succeeded), ..self.settled(succeeded) }
    }

    /// What the program has to do after the outcome of the pending step.
    pub open spec fn spec_action(self, succeeded: bool) -> SessionAction {
        match self.step_due(succeeded) {
            Some(step) => SessionAction::Perform(step),
            None => SessionAction::Finish(self.settled(succeeded).failure),
        }
    }

    /// A session before its first step, which is to take raw input.
    pub fn begin() -> (r: (Session, SessionAction))
        ensures
            r.0 == Self::spec_begin(),
            r.1 == SessionAction::Perform(Step::EnableRawMode),
    {
        (
            Session {
                raw_mode: false,
                alternate_screen: false,
                mouse_capture: false,
                cursor_hidden: false,
                pending: Some(Step::EnableRawMode),
                failure: None,
            },
            SessionAction::Perform(Step::EnableRawMode),
        )
    }

    /// Takes in the outcome of the step that was handed out last, and hands
    /// out the next step or the end of the session.
    pub fn advance(&mut self, succeeded: bool) -> (action: SessionAction)
        ensures
            *final(self) == old(self).spec_advance(succeeded),
            action == old(self).spec_action(succeeded),
    {
        let mut next: Option<Step> = None;
        match self.pending {
            Some(Step::EnableRawMode) => {
                if succeeded {
                    self.raw_mode = true;
                    next = Some(Step::EnterAlternateScreen);
                } else {
                    self.failure = Some(Step::EnableRawMode);
                }
            },
            Some(Step::EnterAlternateScreen) => {
                if succeeded {
                    self.alternate_screen = true;
                    next = Some(Step::EnableMouseCapture);
                } else {
                    self.failure = Some(Step::EnterAlternateScreen);
                }
            },
            Some(Step::EnableMouseCapture) => {
                if succeeded {
                    self.mouse_capture = true;
                    self.cursor_hidden = true;
                    next = Some(Step::RunLoop);
                } else {
                    self.failure = Some(Step::EnableMouseCapture);
                }
            },
            Some(Step::RunLoop) => {
                if !succeeded {
                    self.failure = Some(Step::RunLoop);
                }
            },
            Some(Step::ShowCursor) => {
                self.cursor_hidden = false;
                self.note_release(Step::ShowCursor, succeeded);
            },
            Some(Step::DisableMouseCapture) => {
                self.mouse_capture = false;
                self.note_release(Step::DisableMouseCapture, succeeded);
            },
            Some(Step::LeaveAlternateScreen) => {
                self.alternate_screen = false;
                self.note_release(Step::LeaveAlternateScreen, succeeded);
            },
            Some(Step::DisableRawMode) => {
                self.raw_mode = false;
                self.note_release(Step::DisableRawMode, succeeded);
            },
            None => {},
        }
        if next.is_none() {
            next = if self.cursor_hidden {
                Some(Step::ShowCursor)
            } else if self.mouse_capture {
                Some(Step::DisableMouseCapture)
            } else if self.alternate_screen {
                Some(Step::LeaveAlternateScreen)
            } else if self.raw_mode {
                Some(Step::DisableRawMode)
            } else {
                None
            };
        }
        self.pending = next;
        match next {
            Some(step) => SessionAction::Perform(step),
            None => SessionAction::Finish(self.failure),
        }
    }

    /// Notes the outcome of a release step in the failure to report.
    fn note_release(&mut self, step: Step, succeeded: bool)
        ensures
            *final(self) == (Session {
                failure: old(self).failure_after_release(step, succeeded),
                ..*old(self)
            }),
    {
        if !succeeded {
            match self.failure {
                None => {
                    self.failure = Some(step);
                },
                Some(Step::RunLoop) => {
                    self.failure = Some(step);
                },
                _ => {},
            }
        }
    }
}

/// A session ends only when no mode of the terminal is held any more:
/// whatever state it is in and however the pending step ends, it does not
/// finish before every mode that was taken has had its release step.
pub proof fn lemma_finish_releases_everything(session: Session, succeeded: bool)
    ensures
        session.spec_action(succeeded) is Finish ==> !session.spec_advance(succeeded).holds_any(),
        session.spec_action(succeeded) matches SessionAction::Finish(report) ==> report
            == session.spec_advance(succeeded).failure,
{
}

/// Once taking the terminal is over, no mode is taken again: after the
/// event loop or a release step, and after a step that failed, only
/// release steps follow.
pub proof fn lemma_release_only(session: Session, succeeded: bool)
    requires
        !succeeded || session.pending is None || Session::step_after(session.pending->0) is None,
    ensures
        session.spec_action(succeeded) matches SessionAction::Perform(step) ==> (step
            == Step::ShowCursor || step == Step::DisableMouseCapture || step
            == Step::LeaveAlternateScreen || step == Step::DisableRawMode),
        session.spec_advance(succeeded).raw_mode ==> session.raw_mode,
        session.spec_advance(succeeded).alternate_screen ==> session.alternate_screen,
        session.spec_advance(succeeded).mouse_capture ==> session.mouse_capture,
        session.spec_advance(succeeded).cursor_hidden ==> session.cursor_hidden,
{
}

/// Taking the terminal goes step by step: raw input, the alternate screen,
/// mouse capture, and then the event loop runs with every mode held.
pub proof fn lemma_acquisition_in_order()
    ensures
        Session::spec_begin().spec_action(true) == SessionAction::Perform(
            Step::EnterAlternateScreen,
        ),
        Session::spec_begin().spec_advance(true).spec_action(true) == SessionAction::Perform(
            Step::EnableMouseCapture,
        ),
        Session::spec_begin().spec_advance(true).spec_advance(true).spec_action(true)
            == SessionAction::Perform(Step::RunLoop),
        Session::spec_begin().spec_advance(true).spec_advance(true).spec_advance(true)
            == Session::spec_running(),
{
}

/// However the event loop ends and whatever the release steps do, all four
/// release steps are handed out, in the reverse of the order in which the
/// modes were taken, and the session ends with no mode held. It reports the
/// first release step that failed; where none failed, the failure of the
/// event loop; and where that succeeded too, no failure.
pub proof fn lemma_teardown_runs_every_step(
    loop_ok: bool,
    cursor_ok: bool,
    mouse_ok: bool,
    screen_ok: bool,
    raw_ok: bool,
)
    ensures
        ({
            let s0 = Session::spec_running();
            let s1 = s0.spec_advance(loop_ok);
            let s2 = s1.spec_advance(cursor_ok);
            let s3 = s2.spec_advance(mouse_ok);
            let s4 = s3.spec_advance(screen_ok);
            let s5 = s4.spec_advance(raw_ok);
            &&& s0.spec_action(loop_ok) == SessionAction::Perform(Step::ShowCursor)
            &&& s1.spec_action(cursor_ok) == SessionAction::Perform(Step::DisableMouseCapture)
            &&& s2.spec_action(mouse_ok) == SessionAction::Perform(Step::LeaveAlternateScreen)
            &&& s3.spec_action(screen_ok) == SessionAction::Perform(Step::DisableRawMode)
            &&& s4.spec_action(raw_ok) == SessionAction::Finish(
                if !cursor_ok {
                    Some(Step::ShowCursor)
                } else if !mouse_ok {
                    Some(Step::DisableMouseCapture)
                } else if !screen_ok {
                    Some(Step::LeaveAlternateScreen)
                } else if !raw_ok {
                    Some(Step::DisableRawMode)
                } else if !loop_ok {
                    Some(Step::RunLoop)
                } else {
                    None
                },
            )
            &&& !s5.holds_any()
            &&& s5.pending is None
        }),
{
}

/// Where taking a mode fails, the modes taken before it are released in
/// reverse order, the event loop does not run, and the failure reported is
/// that of the step that failed, whatever the release steps do.
pub proof fn lemma_failed_acquisition(first_ok: bool, second_ok: bool)
    ensures
        Session::spec_begin().spec_action(false) == SessionAction::Finish(
            Some(Step::EnableRawMode),
        ),
        ({
            let s1 = Session::spec_begin().spec_advance(true);
            let s2 = s1.spec_advance(false);
            &&& s1.spec_action(false) == SessionAction::Perform(Step::DisableRawMode)
            &&& s2.spec_action(first_ok) == SessionAction::Finish(
                Some(Step::EnterAlternateScreen),
            )
            &&& !s2.spec_advance(first_ok).holds_any()
        }),
        ({
            let s2 = Session::spec_begin().spec_advance(true).spec_advance(true);
            let s3 = s2.spec_advance(false);
            let s4 = s3.spec_advance(first_ok);
            &&& s2.spec_action(false) == SessionAction::Perform(Step::LeaveAlternateScreen)
            &&& s3.spec_action(first_ok) == SessionAction::Perform(Step::DisableRawMode)
            &&& s4.spec_action(second_ok) == SessionAction::Finish(
                Some(Step::EnableMouseCapture),
            )
            &&& !s4.spec_advance(second_ok).holds_any()
        }),
{
}

/// A session has at most eight steps, and it releases everything on every
/// path: whatever the outcomes of its steps are, after eight of them it has
/// ended, no step is pending and no mode of the terminal is held.
pub proof fn lemma_session_ends(
    o1: bool,
    o2: bool,
    o3: bool,
    o4: bool,
    o5: bool,
    o6: bool,
    o7: bool,
    o8: bool,
)
    ensures
        ({
            let end = Session::spec_begin().spec_advance(o1).spec_advance(o2).spec_advance(
                o3,
            ).spec_advance(o4).spec_advance(o5).spec_advance(o6).spec_advance(o7).spec_advance(o8);
            &&& end.pending is None
            &&& !end.holds_any()
            &&& forall|more: bool| end.spec_action(more) == SessionAction::Finish(end.failure)
        }),
{
    let s1 = Session::spec_begin().spec_advance(o1);
    let s2 = s1.spec_advance(o2);
    let s3 = s2.spec_advance(o3);
    let s4 = s3.spec_advance(o4);
    let s5 = s4.spec_advance(o5);
    let s6 = s5.spec_advance(o6);
    let s7 = s6.spec_advance(o7);
    let s8 = s7.spec_advance(o8);
    assert(s8.pending is None && !s8.holds_any());
}

} // verus!
