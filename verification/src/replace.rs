//! One replacement from beginning to end.
//!
//! A replacement is a conversation with the system. The library says what
//! is to be done next, an `Action`; whoever drives it does that and says
//! what came of it, an `Event`; the library decides what follows. Where keys
//! can be sent the steps are:
//!
//! 1. list the open windows and find the one whose title matches;
//! 2. make sure that window still lives;
//! 3. put the new text on the clipboard;
//! 4. ask for the window to be brought to the front, and look until it is;
//! 5. let it rest, then send the keys.
//!
//! The first step that fails ends the replacement with its error, and
//! nothing that follows it is done. Keys are sent only to a window that was
//! found, was alive and was seen in front.
//!
//! An event that does not answer the action that is pending changes
//! nothing: the state stays and the answer to it is `Action::Idle`.

use crate::activation::{ActivationConfig, ActivationState, Observation};
use crate::error::ReplacementError;
use crate::input::{InputCommand, InputStep, InputTiming, KeyEvent, ScriptCommand};
use crate::resolver::{
    entry_views, resolve, resolve_window, WindowEntry, WindowEntryView, WindowHandle,
};
use crate::selection::{SelectionInfoView, SelectionInfoWrapper};
use vstd::prelude::*;

verus! {

/// What the platform offers for writing into another application.
#[derive(Clone, Copy, Debug, PartialEq, Eq, Structural)]
pub enum Platform {
    /// Windows have handles and key events can be sent to the one in front.
    KeyInjection,
    /// A scripting facility acts on the application in front; there are no
    /// handles, and it is the facility that sees to the focus.
    Scripted,
    /// Neither.
    Unsupported,
}

/// All the waiting times of a replacement, in nanoseconds.
#[derive(Clone, Copy, Debug, PartialEq, Eq, Structural)]
pub struct Timing {
    pub activation: ActivationConfig,
    pub input: InputTiming,
}

/// How far a replacement has come. Each phase but the last waits for the
/// answer to one action.
#[derive(Clone, Copy, Debug, PartialEq, Eq)]
pub enum Phase {
    /// The open windows are being listed.
    Resolving,
    /// The window was found; whether it still lives is being asked.
    Validating { target: WindowHandle },
    /// The window lives; the text is being put on the clipboard.
    Staging { target: WindowHandle },
    /// The text is on the clipboard; the window is being brought to the
    /// front.
    Activating { target: WindowHandle, state: ActivationState },
    /// The window is in front and is given a rest.
    Settling,
    /// The keys are being sent; `step` is the one under way.
    Synthesizing { step: InputStep },
    /// The text is being put on the clipboard for the scripting facility.
    ScriptStaging,
    /// The scripting facility is at work; `command` is the one under way.
    Scripting { command: ScriptCommand },
    /// The replacement has ended.
    Done(Result<(), ReplacementError>),
}

/// What the system has to do next.
#[derive(Debug, PartialEq, Eq)]
pub enum Action {
    /// List the open top-level windows with their titles. Answered by
    /// `Event::Windows`.
    EnumerateWindows,
    /// Ask whether the window still lives. Answered by `Event::Liveness`.
    CheckWindow(WindowHandle),
    /// Put this text on the clipboard, in place of what is there. Answered
    /// by `Event::ClipboardStaged`.
    StageClipboard(String),
    /// Ask once for the window to be brought to the front, and start the
    /// clock. Answered by `Event::ForegroundRequested`.
    RequestForeground(WindowHandle),
    /// Let `after` pass, then look which window is in front and how long
    /// ago the clock was started. Answered by `Event::Foreground`.
    QueryForeground { after: u64 },
    /// Let this much time pass. Answered by `Event::Slept`.
    Sleep(u64),
    /// Send this key event to the window in front. Answered by
    /// `Event::KeySent`.
    SendKey(KeyEvent),
    /// Have the scripting facility do this. Answered by `Event::ScriptRan`.
    RunScript(ScriptCommand),
    /// Nothing is left to do: the replacement has ended in this way.
    Finish(Result<(), ReplacementError>),
    /// Nothing new to do: the event was not the answer that is awaited.
    Idle,
}

/// An action as plain values.
pub enum ActionView {
    EnumerateWindows,
    CheckWindow(WindowHandle),
    StageClipboard(Seq<char>),
    RequestForeground(WindowHandle),
    QueryForeground { after: u64 },
    Sleep(u64),
    SendKey(KeyEvent),
    RunScript(ScriptCommand),
    Finish(Result<(), ReplacementError>),
    Idle,
}

impl View for Action {
    type V = ActionView;

    open spec fn view(&self) -> ActionView {
        match *self {
            Action::EnumerateWindows => ActionView::EnumerateWindows,
            Action::CheckWindow(window) => ActionView::CheckWindow(window),
            Action::StageClipboard(text) => ActionView::StageClipboard(text@),
            Action::RequestForeground(window) => ActionView::RequestForeground(window),
            Action::QueryForeground { after } => ActionView::QueryForeground { after },
            Action::Sleep(time) => ActionView::Sleep(time),
            Action::SendKey(event) => ActionView::SendKey(event),
            Action::RunScript(command) => ActionView::RunScript(command),
            Action::Finish(outcome) => ActionView::Finish(outcome),
            Action::Idle => ActionView::Idle,
        }
    }
}

impl Clone for Action {
    fn clone(&self) -> (copy: Self)
        ensures
            copy@ == self@,
    {
        match self {
            Action::EnumerateWindows => Action::EnumerateWindows,
            Action::CheckWindow(window) => Action::CheckWindow(*window),
            Action::StageClipboard(text) => Action::StageClipboard(text.clone()),
            Action::RequestForeground(window) => Action::RequestForeground(*window),
            Action::QueryForeground { after } => Action::QueryForeground { after: *after },
            Action::Sleep(time) => Action::Sleep(*time),
            Action::SendKey(event) => Action::SendKey(*event),
            Action::RunScript(command) => Action::RunScript(*command),
            Action::Finish(outcome) => Action::Finish(*outcome),
            Action::Idle => Action::Idle,
        }
    }
}

/// What came of an action.
#[derive(Debug)]
pub enum Event {
    /// The open windows, in the order in which the system listed them.
    Windows(Vec<WindowEntry>),
    /// Whether the window still lives.
    Liveness(bool),
    /// Whether the text is on the clipboard now.
    ClipboardStaged(bool),
    /// Whether the system agreed to bring the window to the front.
    ForegroundRequested(bool),
    /// The window that is in front, and the time on the clock.
    Foreground(Observation),
    /// The time has passed.
    Slept,
    /// Whether the system took the key event.
    KeySent(bool),
    /// Whether the scripting facility did as told.
    ScriptRan(bool),
}

/// An event as plain values.
pub enum EventView {
    Windows(Seq<WindowEntryView>),
    Liveness(bool),
    ClipboardStaged(bool),
    ForegroundRequested(bool),
    Foreground(Observation),
    Slept,
    KeySent(bool),
    ScriptRan(bool),
}

impl View for Event {
    type V = EventView;

    open spec fn view(&self) -> EventView {
        match *self {
            Event::Windows(windows) => EventView::Windows(entry_views(windows@)),
            Event::Liveness(live) => EventView::Liveness(live),
            Event::ClipboardStaged(staged) => EventView::ClipboardStaged(staged),
            Event::ForegroundRequested(accepted) => EventView::ForegroundRequested(accepted),
            Event::Foreground(seen) => EventView::Foreground(seen),
            Event::Slept => EventView::Slept,
            Event::KeySent(sent) => EventView::KeySent(sent),
            Event::ScriptRan(ran) => EventView::ScriptRan(ran),
        }
    }
}

/// A replacement under way: what it is about and how far it has come.
#[derive(Debug)]
pub struct Replacement {
    platform: Platform,
    timing: Timing,
    window_id: String,
    new_text: String,
    phase: Phase,
}

/// A replacement as plain values.
pub struct ReplacementView {
    /// What the platform offers.
    pub platform: Platform,
    /// The waiting times.
    pub timing: Timing,
    /// The title that the window had when the selection was made; empty
    /// when nothing was captured.
    pub window_id: Seq<char>,
    /// The text that is to stand where the selection was.
    pub new_text: Seq<char>,
    /// How far the replacement has come.
    pub phase: Phase,
}

impl View for Replacement {
    type V = ReplacementView;

    closed spec fn view(&self) -> ReplacementView {
        ReplacementView {
            platform: self.platform,
            timing: self.timing,
            window_id: self.window_id@,
            new_text: self.new_text@,
            phase: self.phase,
        }
    }
}

/// The end of a replacement: the phase and the action that say so.
pub open spec fn finished(outcome: Result<(), ReplacementError>) -> (Phase, ActionView) {
    (Phase::Done(outcome), ActionView::Finish(outcome))
}

/// The action that carries out a command of the input plan.
pub open spec fn action_for(command: InputCommand) -> ActionView {
    match command {
        InputCommand::Key(event) => ActionView::SendKey(event),
        InputCommand::Delay(time) => ActionView::Sleep(time),
    }
}

/// Whether `event` is the answer to the action for `command`. What the
/// answer says is of no account: a key that could not be sent is not sent
/// again, and the keys after it are sent all the same.
pub open spec fn answers(command: InputCommand, event: EventView) -> bool {
    match command {
        InputCommand::Key(_) => event is KeySent,
        InputCommand::Delay(_) => event is Slept,
    }
}

/// The phase and the action with which a replacement begins.
///
/// Without a captured selection it ends at once with `NoSelectionInfo`, on
/// any platform. With one, it ends at once with `PlatformUnsupported` where
/// the platform offers nothing, begins with the listing of the windows where
/// keys can be sent, and with the clipboard where a script does the work.
pub open spec fn first_move(
    record: Option<SelectionInfoView>,
    platform: Platform,
    new_text: Seq<char>,
) -> (Phase, ActionView) {
    match record {
        None => finished(Err(ReplacementError::NoSelectionInfo)),
        Some(_) => match platform {
            Platform::Unsupported => finished(Err(ReplacementError::PlatformUnsupported)),
            Platform::KeyInjection => (Phase::Resolving, ActionView::EnumerateWindows),
            Platform::Scripted => (Phase::ScriptStaging, ActionView::StageClipboard(new_text)),
        },
    }
}

/// A replacement at its beginning, and its first action.
pub open spec fn begin(
    record: Option<SelectionInfoView>,
    new_text: Seq<char>,
    platform: Platform,
    timing: Timing,
) -> (ReplacementView, ActionView) {
    let first = first_move(record, platform, new_text);
    (
        ReplacementView {
            platform,
            timing,
            window_id: match record {
                Some(info) => info.window_id,
                None => Seq::empty(),
            },
            new_text,
            phase: first.0,
        },
        first.1,
    )
}

/// The phase that follows and the action to take when `event` comes in
/// while the replacement is as `s` says.
pub open spec fn transition(s: ReplacementView, event: EventView) -> (Phase, ActionView) {
    let idle = (s.phase, ActionView::Idle);
    match s.phase {
        Phase::Resolving => match event {
            EventView::Windows(windows) => match resolve(windows, s.window_id) {
                Some(target) => (Phase::Validating { target }, ActionView::CheckWindow(target)),
                None => finished(Err(ReplacementError::WindowNotFound)),
            },
            _ => idle,
        },
        Phase::Validating { target } => match event {
            EventView::Liveness(true) => (
                Phase::Staging { target },
                ActionView::StageClipboard(s.new_text),
            ),
            EventView::Liveness(false) => finished(Err(ReplacementError::InvalidWindowHandle)),
            _ => idle,
        },
        Phase::Staging { target } => match event {
            EventView::ClipboardStaged(true) => (
                Phase::Activating { target, state: ActivationState::Requested },
                ActionView::RequestForeground(target),
            ),
            EventView::ClipboardStaged(false) => finished(Err(ReplacementError::ClipboardError)),
            _ => idle,
        },
        Phase::Activating { target, state: ActivationState::Requested } => match event {
            EventView::ForegroundRequested(accepted) => match ActivationState::Requested.after_request(
                accepted,
            ) {
                ActivationState::Polling => (
                    Phase::Activating { target, state: ActivationState::Polling },
                    ActionView::QueryForeground { after: 0 },
                ),
                _ => finished(Err(ReplacementError::ActivationRequestFailed)),
            },
            _ => idle,
        },
        Phase::Activating { target, state: ActivationState::Polling } => match event {
            EventView::Foreground(seen) => match ActivationState::Polling.after_observation(
                s.timing.activation,
                target,
                seen,
            ) {
                ActivationState::Activated => (
                    Phase::Settling,
                    ActionView::Sleep(s.timing.activation.settle),
                ),
                ActivationState::Polling => (
                    s.phase,
                    ActionView::QueryForeground { after: s.timing.activation.poll_interval },
                ),
                _ => finished(Err(ReplacementError::ActivationTimeout)),
            },
            _ => idle,
        },
        Phase::Activating { .. } => idle,
        Phase::Settling => match event {
            EventView::Slept => (
                Phase::Synthesizing { step: InputStep::EraseDown },
                action_for(InputStep::EraseDown.command_spec(s.timing.input)),
            ),
            _ => idle,
        },
        Phase::Synthesizing { step } => if answers(step.command_spec(s.timing.input), event) {
            match step.successor() {
                Some(following) => (
                    Phase::Synthesizing { step: following },
                    action_for(following.command_spec(s.timing.input)),
                ),
                None => finished(Ok(())),
            }
        } else {
            idle
        },
        Phase::ScriptStaging => match event {
            EventView::ClipboardStaged(true) => (
                Phase::Scripting { command: ScriptCommand::SelectAll },
                ActionView::RunScript(ScriptCommand::SelectAll),
            ),
            EventView::ClipboardStaged(false) => finished(Err(ReplacementError::ClipboardError)),
            _ => idle,
        },
        Phase::Scripting { command } => match event {
            EventView::ScriptRan(_) => match command.successor() {
                Some(following) => (
                    Phase::Scripting { command: following },
                    ActionView::RunScript(following),
                ),
                None => finished(Ok(())),
            },
            _ => idle,
        },
        Phase::Done(outcome) => finished(outcome),
    }
}

/// What the caller is told at the end: nothing while the replacement is
/// under way, then success or the failure in words.
pub open spec fn report_of(s: ReplacementView) -> Option<Result<(), Seq<char>>> {
    match s.phase {
        Phase::Done(Ok(())) => Some(Ok(())),
        Phase::Done(Err(error)) => Some(Err(error.description(s.window_id))),
        _ => None,
    }
}

/// The replacement after `event`, and the action to take.
pub open spec fn step_model(s: ReplacementView, event: EventView) -> (ReplacementView, ActionView) {
    let next = transition(s, event);
    (ReplacementView { phase: next.0, ..s }, next.1)
}

/// Nothing is asked of the system without its reason. Whatever the state
/// and the event: the clipboard is only given the new text, and only after
/// the window was said to live, or at the start of a scripted replacement;
/// the window is only asked to the front once the text is on the clipboard;
/// the foreground is only looked at while the window is awaited; a key is
/// only sent once the window has been seen in front.
pub proof fn lemma_actions_have_their_reasons(s: ReplacementView, event: EventView)
    ensures
        transition(s, event).1 matches ActionView::CheckWindow(window) ==> s.phase is Resolving
            && transition(s, event).0 == (Phase::Validating { target: window }),
        transition(s, event).1 matches ActionView::StageClipboard(text) ==> text == s.new_text
            && s.phase is Validating && event == EventView::Liveness(true),
        transition(s, event).1 matches ActionView::RequestForeground(window) ==> s.phase == (
        Phase::Staging { target: window }) && event == EventView::ClipboardStaged(true),
        transition(s, event).1 is QueryForeground ==> s.phase is Activating && (event
            is ForegroundRequested || event is Foreground),
        transition(s, event).1 is SendKey ==> s.phase is Settling || s.phase is Synthesizing,
        transition(s, event).1 is RunScript ==> s.phase is ScriptStaging || s.phase is Scripting,
        transition(s, event).1 is EnumerateWindows ==> false,
        transition(s, event).1 is Idle ==> transition(s, event).0 == s.phase,
        transition(s, event).1 matches ActionView::Finish(outcome) ==> transition(s, event).0
            == Phase::Done(outcome),
{
}

impl Timing {
    /// The usual waiting times.
    pub fn reference() -> (timing: Self)
        ensures
            timing.activation == (ActivationConfig {
                poll_interval: crate::activation::POLL_INTERVAL,
                timeout: crate::activation::ACTIVATION_TIMEOUT,
                settle: crate::activation::SETTLE_DELAY,
            }),
            timing.input == (InputTiming {
                erase_settle: crate::input::ERASE_SETTLE,
                paste_hold: crate::input::PASTE_HOLD,
            }),
    {
        Timing { activation: ActivationConfig::reference(), input: InputTiming::reference() }
    }
}

/// The action that carries out `command`.
fn perform(command: InputCommand) -> (action: Action)
    ensures
        action@ == action_for(command),
{
    match command {
        InputCommand::Key(event) => Action::SendKey(event),
        InputCommand::Delay(time) => Action::Sleep(time),
    }
}

impl Replacement {
    /// The same replacement in another phase.
    fn moved_to(self, phase: Phase) -> (moved: Replacement)
        ensures
            moved@ == (ReplacementView { phase, ..self@ }),
    {
        Replacement {
            platform: self.platform,
            timing: self.timing,
            window_id: self.window_id,
            new_text: self.new_text,
            phase,
        }
    }

    /// Ends the replacement.
    fn finish(self, outcome: Result<(), ReplacementError>) -> (ended: (Replacement, Action))
        ensures
            ended.0@ == (ReplacementView { phase: finished(outcome).0, ..self@ }),
            ended.1@ == finished(outcome).1,
    {
        (self.moved_to(Phase::Done(outcome)), Action::Finish(outcome))
    }

    /// Leaves the replacement as it is.
    fn idle(self) -> (same: (Replacement, Action))
        ensures
            same.0@ == self@,
            same.1@ == ActionView::Idle,
    {
        (self, Action::Idle)
    }

    /// How far the replacement has come.
    pub fn phase(&self) -> (phase: Phase)
        ensures
            phase == self@.phase,
    {
        self.phase
    }

    /// The platform that the replacement was begun for.
    pub fn platform(&self) -> (platform: Platform)
        ensures
            platform == self@.platform,
    {
        self.platform
    }

    /// The title that is looked for; empty when nothing was captured.
    pub fn window_id(&self) -> (title: &str)
        ensures
            title@ == self@.window_id,
    {
        self.window_id.as_str()
    }

    /// The text that is to stand where the selection was.
    pub fn new_text(&self) -> (text: &str)
        ensures
            text@ == self@.new_text,
    {
        self.new_text.as_str()
    }

    /// How the replacement ended; `None` while it is under way.
    pub fn outcome(&self) -> (outcome: Option<Result<(), ReplacementError>>)
        ensures
            outcome == (match self@.phase {
                Phase::Done(result) => Some(result),
                _ => None,
            }),
    {
        match self.phase {
            Phase::Done(result) => Some(result),
            _ => None,
        }
    }

    /// What the caller is told: `None` while the replacement is under way,
    /// then `Ok` or the failure in words, with the title that was looked
    /// for where no window matched it.
    pub fn report(&self) -> (report: Option<Result<(), String>>)
        ensures
            match report {
                None => report_of(self@) is None,
                Some(Ok(())) => report_of(self@) == Some(Ok::<(), Seq<char>>(())),
                Some(Err(message)) => report_of(self@) == Some(Err::<(), Seq<char>>(message@)),
            },
    {
        match self.phase {
            Phase::Done(Ok(())) => Some(Ok(())),
            Phase::Done(Err(error)) => Some(Err(error.describe(self.window_id.as_str()))),
            _ => None,
        }
    }

    /// Takes what came of the pending action and says what to do next.
    ///
    /// The outcome is that of `step_model`: the next phase and the action
    /// are decided by the phase and the event alone; the platform, the
    /// waiting times, the title and the text stay as they are. Once the
    /// replacement has ended, every event is answered by `Action::Finish`
    /// with the same outcome.
    pub fn step(self, event: Event) -> (next: (Replacement, Action))
        ensures
            (next.0@, next.1@) == step_model(self@, event@),
    {
        match self.phase {
            Phase::Resolving => match event {
                Event::Windows(windows) => {
                    match resolve_window(&windows, self.window_id.as_str()) {
                        Some(target) => (
                            self.moved_to(Phase::Validating { target }),
                            Action::CheckWindow(target),
                        ),
                        None => self.finish(Err(ReplacementError::WindowNotFound)),
                    }
                },
                _ => self.idle(),
            },
            Phase::Validating { target } => match event {
                Event::Liveness(true) => {
                    let text = self.new_text.clone();
                    (self.moved_to(Phase::Staging { target }), Action::StageClipboard(text))
                },
                Event::Liveness(false) => self.finish(Err(ReplacementError::InvalidWindowHandle)),
                _ => self.idle(),
            },
            Phase::Staging { target } => match event {
                Event::ClipboardStaged(true) => (
                    self.moved_to(Phase::Activating { target, state: ActivationState::Requested }),
                    Action::RequestForeground(target),
                ),
                Event::ClipboardStaged(false) => self.finish(Err(ReplacementError::ClipboardError)),
                _ => self.idle(),
            },
            Phase::Activating { target, state: ActivationState::Requested } => match event {
                Event::ForegroundRequested(accepted) => {
                    match ActivationState::Requested.request_answered(accepted) {
                        ActivationState::Polling => (
                            self.moved_to(
                                Phase::Activating { target, state: ActivationState::Polling },
                            ),
                            Action::QueryForeground { after: 0 },
                        ),
                        _ => self.finish(Err(ReplacementError::ActivationRequestFailed)),
                    }
                },
                _ => self.idle(),
            },
            Phase::Activating { target, state: ActivationState::Polling } => match event {
                Event::Foreground(seen) => {
                    let config = self.timing.activation;
                    match ActivationState::Polling.foreground_seen(&config, target, seen) {
                        ActivationState::Activated => (
                            self.moved_to(Phase::Settling),
                            Action::Sleep(config.settle),
                        ),
                        ActivationState::Polling => (
                            self,
                            Action::QueryForeground { after: config.poll_interval },
                        ),
                        _ => self.finish(Err(ReplacementError::ActivationTimeout)),
                    }
                },
                _ => self.idle(),
            },
            Phase::Activating { .. } => self.idle(),
            Phase::Settling => match event {
                Event::Slept => {
                    let step = InputStep::first();
                    let action = perform(step.command(&self.timing.input));
                    (self.moved_to(Phase::Synthesizing { step }), action)
                },
                _ => self.idle(),
            },
            Phase::Synthesizing { step } => {
                let answered = match step.command(&self.timing.input) {
                    InputCommand::Key(_) => match event {
                        Event::KeySent(_) => true,
                        _ => false,
                    },
                    InputCommand::Delay(_) => match event {
                        Event::Slept => true,
                        _ => false,
                    },
                };
                if answered {
                    match step.next() {
                        Some(following) => {
                            let action = perform(following.command(&self.timing.input));
                            (self.moved_to(Phase::Synthesizing { step: following }), action)
                        },
                        None => self.finish(Ok(())),
                    }
                } else {
                    self.idle()
                }
            },
            Phase::ScriptStaging => match event {
                Event::ClipboardStaged(true) => {
                    let command = ScriptCommand::first();
                    (self.moved_to(Phase::Scripting { command }), Action::RunScript(command))
                },
                Event::ClipboardStaged(false) => self.finish(Err(ReplacementError::ClipboardError)),
                _ => self.idle(),
            },
            Phase::Scripting { command } => match event {
                Event::ScriptRan(_) => match command.next() {
                    Some(following) => (
                        self.moved_to(Phase::Scripting { command: following }),
                        Action::RunScript(following),
                    ),
                    None => self.finish(Ok(())),
                },
                _ => self.idle(),
            },
            Phase::Done(outcome) => self.finish(outcome),
        }
    }
}

/// Begins the replacement of the selection that `store` holds by `new_text`.
///
/// Returns the replacement and the first thing to do. From then on
/// `Replacement::step` takes what came of each action and gives the next,
/// until the action is `Action::Finish`. Only the title is copied out of the
/// store; the store is not needed again.
pub fn replace_selected_text(
    store: &SelectionInfoWrapper,
    new_text: String,
    platform: Platform,
    timing: Timing,
) -> (started: (Replacement, Action))
    ensures
        (started.0@, started.1@) == begin(store@, new_text@, platform, timing),
{
    match &store.0 {
        None => {
            let outcome = Err(ReplacementError::NoSelectionInfo);
            (
                Replacement {
                    platform,
                    timing,
                    window_id: String::new(),
                    new_text,
                    phase: Phase::Done(outcome),
                },
                Action::Finish(outcome),
            )
        },
        Some(record) => {
            let window_id = record.window_id.clone();
            match platform {
                Platform::Unsupported => {
                    let outcome = Err(ReplacementError::PlatformUnsupported);
                    (
                        Replacement { platform, timing, window_id, new_text, phase: Phase::Done(outcome) },
                        Action::Finish(outcome),
                    )
                },
                Platform::KeyInjection => (
                    Replacement { platform, timing, window_id, new_text, phase: Phase::Resolving },
                    Action::EnumerateWindows,
                ),
                Platform::Scripted => {
                    let text = new_text.clone();
                    (
                        Replacement {
                            platform,
                            timing,
                            window_id,
                            new_text,
                            phase: Phase::ScriptStaging,
                        },
                        Action::StageClipboard(text),
                    )
                },
            }
        },
    }
}

} // verus!
