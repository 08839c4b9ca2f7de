use selection_replace::activation::{ActivationState, Observation};
use selection_replace::error::ReplacementError;
use selection_replace::input::{Key, KeyEvent, KeyMotion, ScriptCommand};
use selection_replace::replace::{
    replace_selected_text, Action, Event, Phase, Platform, Replacement, Timing,
};
use selection_replace::resolver::{WindowEntry, WindowHandle};
use selection_replace::selection::{record_selection, SelectionInfoWrapper};

const MS: u64 = 1_000_000;

/// A system that answers as it is told to.
struct World {
    windows: Vec<(isize, &'static str)>,
    live: bool,
    clipboard_works: bool,
    request_accepted: bool,
    /// The look (counted from 1) from which on the target is in front.
    in_front_from_look: Option<u64>,
    keys_work: bool,
    scripts_work: bool,
    // what happened
    target: Option<WindowHandle>,
    clock: u64,
    looks: u64,
    clipboard: Option<String>,
    keys: Vec<KeyEvent>,
    scripts: Vec<ScriptCommand>,
    slept: Vec<u64>,
    requests: u64,
}

fn world(windows: Vec<(isize, &'static str)>) -> World {
    World {
        windows,
        live: true,
        clipboard_works: true,
        request_accepted: true,
        in_front_from_look: Some(1),
        keys_work: true,
        scripts_work: true,
        target: None,
        clock: 0,
        looks: 0,
        clipboard: None,
        keys: Vec::new(),
        scripts: Vec::new(),
        slept: Vec::new(),
        requests: 0,
    }
}

impl World {
    fn perform(&mut self, action: &Action) -> Option<Event> {
        match action {
            Action::EnumerateWindows => Some(Event::Windows(
                self.windows
                    .iter()
                    .map(|(handle, title)| WindowEntry {
                        handle: WindowHandle(*handle),
                        title: title.to_string(),
                    })
                    .collect(),
            )),
            Action::CheckWindow(window) => {
                self.target = Some(*window);
                Some(Event::Liveness(self.live))
            }
            Action::StageClipboard(text) => {
                if self.clipboard_works {
                    self.clipboard = Some(text.clone());
                }
                Some(Event::ClipboardStaged(self.clipboard_works))
            }
            Action::RequestForeground(window) => {
                assert_eq!(Some(*window), self.target);
                self.requests += 1;
                self.clock = 0;
                Some(Event::ForegroundRequested(self.request_accepted))
            }
            Action::QueryForeground { after } => {
                self.clock += *after + 1000;
                self.looks += 1;
                let in_front = match self.in_front_from_look {
                    Some(from) => self.looks >= from,
                    None => false,
                };
                let foreground = if in_front { self.target.unwrap() } else { WindowHandle(-999) };
                Some(Event::Foreground(Observation { foreground, elapsed: self.clock }))
            }
            Action::Sleep(time) => {
                self.slept.push(*time);
                Some(Event::Slept)
            }
            Action::SendKey(event) => {
                self.keys.push(*event);
                Some(Event::KeySent(self.keys_work))
            }
            Action::RunScript(command) => {
                self.scripts.push(*command);
                Some(Event::ScriptRan(self.scripts_work))
            }
            Action::Finish(_) => None,
            Action::Idle => panic!("the driver sent an event that was not awaited"),
        }
    }
}

/// Drives a replacement to its end, as a program around the library would.
fn drive(
    store: &SelectionInfoWrapper,
    new_text: &str,
    platform: Platform,
    world: &mut World,
) -> (Result<(), String>, Vec<Action>) {
    let (mut state, mut action) =
        replace_selected_text(store, new_text.to_string(), platform, Timing::reference());
    let mut actions = Vec::new();
    loop {
        actions.push(action.clone());
        assert!(actions.len() < 1000, "the replacement does not end");
        match world.perform(&action) {
            Some(event) => {
                let next = state.step(event);
                state = next.0;
                action = next.1;
            }
            None => break,
        }
    }
    (state.report().expect("the replacement has ended"), actions)
}

fn store_with(window_id: &str, text: &str) -> SelectionInfoWrapper {
    let mut store = SelectionInfoWrapper::new();
    record_selection(&mut store, window_id.to_string(), (10, 20, 300, 40), text.to_string());
    store
}

fn key(key: Key, motion: KeyMotion) -> KeyEvent {
    KeyEvent { key, motion }
}

fn key_sequence() -> Vec<KeyEvent> {
    vec![
        key(Key::Erase, KeyMotion::Down),
        key(Key::Erase, KeyMotion::Up),
        key(Key::Modifier, KeyMotion::Down),
        key(Key::Paste, KeyMotion::Down),
        key(Key::Paste, KeyMotion::Up),
        key(Key::Modifier, KeyMotion::Up),
    ]
}

fn begun(window_id: &str, platform: Platform) -> (Replacement, Action) {
    replace_selected_text(
        &store_with(window_id, "abc"),
        "hello".to_string(),
        platform,
        Timing::reference(),
    )
}

fn notepad() -> Event {
    Event::Windows(vec![WindowEntry {
        handle: WindowHandle(20),
        title: "Notepad – Untitled (2)".to_string(),
    }])
}

#[test]
fn no_capture_gives_no_selection_info() {
    let store = SelectionInfoWrapper::new();
    let mut system = world(vec![(20, "Notepad – Untitled")]);
    let (result, actions) = drive(&store, "hello", Platform::KeyInjection, &mut system);
    assert_eq!(result, Err("No selection info available".to_string()));
    assert_eq!(actions, vec![Action::Finish(Err(ReplacementError::NoSelectionInfo))]);
    assert_eq!(system.clipboard, None);
    assert_eq!(system.requests, 0);
    assert!(system.keys.is_empty());
}

#[test]
fn no_capture_gives_no_selection_info_on_every_platform() {
    for platform in [Platform::KeyInjection, Platform::Scripted, Platform::Unsupported] {
        let store = SelectionInfoWrapper::new();
        let (state, action) =
            replace_selected_text(&store, "hello".to_string(), platform, Timing::reference());
        assert_eq!(action, Action::Finish(Err(ReplacementError::NoSelectionInfo)));
        assert_eq!(state.outcome(), Some(Err(ReplacementError::NoSelectionInfo)));
        assert_eq!(state.report(), Some(Err("No selection info available".to_string())));
        assert_eq!(state.window_id(), "");
    }
}

#[test]
fn matching_window_is_found_and_the_text_replaced() {
    let store = store_with("Notepad – Untitled", "abc");
    let mut system = world(vec![(10, "Paint – Untitled"), (20, "Notepad – Untitled (2)")]);
    let (result, actions) = drive(&store, "hello", Platform::KeyInjection, &mut system);
    assert_eq!(result, Ok(()));
    assert_eq!(system.target, Some(WindowHandle(20)));
    assert_eq!(system.clipboard, Some("hello".to_string()));
    assert_eq!(system.keys, key_sequence());
    assert_eq!(system.requests, 1);
    assert_eq!(
        actions,
        vec![
            Action::EnumerateWindows,
            Action::CheckWindow(WindowHandle(20)),
            Action::StageClipboard("hello".to_string()),
            Action::RequestForeground(WindowHandle(20)),
            Action::QueryForeground { after: 0 },
            Action::Sleep(300 * MS),
            Action::SendKey(key(Key::Erase, KeyMotion::Down)),
            Action::SendKey(key(Key::Erase, KeyMotion::Up)),
            Action::Sleep(100 * MS),
            Action::SendKey(key(Key::Modifier, KeyMotion::Down)),
            Action::SendKey(key(Key::Paste, KeyMotion::Down)),
            Action::Sleep(50 * MS),
            Action::SendKey(key(Key::Paste, KeyMotion::Up)),
            Action::SendKey(key(Key::Modifier, KeyMotion::Up)),
            Action::Finish(Ok(())),
        ]
    );
}

#[test]
fn window_that_comes_to_the_front_late_is_waited_for() {
    let store = store_with("Notepad – Untitled", "abc");
    let mut system = world(vec![(20, "Notepad – Untitled")]);
    system.in_front_from_look = Some(4);
    let (result, actions) = drive(&store, "hello", Platform::KeyInjection, &mut system);
    assert_eq!(result, Ok(()));
    assert_eq!(system.looks, 4);
    assert_eq!(system.keys, key_sequence());
    assert_eq!(
        actions[4..8],
        [
            Action::QueryForeground { after: 0 },
            Action::QueryForeground { after: 50 * MS },
            Action::QueryForeground { after: 50 * MS },
            Action::QueryForeground { after: 50 * MS },
        ]
    );
    assert_eq!(actions[8], Action::Sleep(300 * MS));
}

#[test]
fn unknown_window_gives_window_not_found() {
    let store = store_with("Ghost Window", "x");
    let mut system = world(vec![(10, "Paint – Untitled"), (20, "Notepad – Untitled")]);
    let (result, actions) = drive(&store, "hello", Platform::KeyInjection, &mut system);
    assert_eq!(result, Err("Window not found: Ghost Window".to_string()));
    assert_eq!(
        actions,
        vec![Action::EnumerateWindows, Action::Finish(Err(ReplacementError::WindowNotFound))]
    );
    assert_eq!(system.clipboard, None);
    assert!(system.keys.is_empty());
}

#[test]
fn no_open_window_gives_window_not_found() {
    let store = store_with("Notepad", "x");
    let mut system = world(Vec::new());
    let (result, _) = drive(&store, "hello", Platform::KeyInjection, &mut system);
    assert_eq!(result, Err("Window not found: Notepad".to_string()));
}

#[test]
fn closed_window_gives_invalid_window_handle() {
    let store = store_with("Notepad – Untitled", "abc");
    let mut system = world(vec![(20, "Notepad – Untitled")]);
    system.live = false;
    let (result, actions) = drive(&store, "hello", Platform::KeyInjection, &mut system);
    assert_eq!(result, Err("Window is no longer valid".to_string()));
    assert_eq!(
        actions,
        vec![
            Action::EnumerateWindows,
            Action::CheckWindow(WindowHandle(20)),
            Action::Finish(Err(ReplacementError::InvalidWindowHandle)),
        ]
    );
    assert_eq!(system.clipboard, None);
    assert_eq!(system.requests, 0);
    assert!(system.keys.is_empty());
}

#[test]
fn failing_clipboard_gives_clipboard_error() {
    let store = store_with("Notepad – Untitled", "abc");
    let mut system = world(vec![(20, "Notepad – Untitled")]);
    system.clipboard_works = false;
    let (result, actions) = drive(&store, "hello", Platform::KeyInjection, &mut system);
    assert_eq!(result, Err("Failed to set clipboard".to_string()));
    assert_eq!(actions.last(), Some(&Action::Finish(Err(ReplacementError::ClipboardError))));
    assert_eq!(actions.len(), 4);
    assert_eq!(system.requests, 0);
    assert_eq!(system.looks, 0);
    assert!(system.keys.is_empty());
}

#[test]
fn refused_request_gives_activation_request_failed() {
    let store = store_with("Notepad – Untitled", "abc");
    let mut system = world(vec![(20, "Notepad – Untitled")]);
    system.request_accepted = false;
    let (result, actions) = drive(&store, "hello", Platform::KeyInjection, &mut system);
    assert_eq!(result, Err("Could not activate window".to_string()));
    assert_eq!(
        actions.last(),
        Some(&Action::Finish(Err(ReplacementError::ActivationRequestFailed)))
    );
    assert_eq!(system.requests, 1);
    assert_eq!(system.looks, 0);
    assert_eq!(system.clipboard, Some("hello".to_string()));
    assert!(system.keys.is_empty());
}

#[test]
fn window_that_never_comes_to_the_front_gives_activation_timeout() {
    let store = store_with("Notepad – Untitled", "abc");
    let mut system = world(vec![(20, "Notepad – Untitled")]);
    system.in_front_from_look = None;
    let (result, actions) = drive(&store, "hello", Platform::KeyInjection, &mut system);
    assert_eq!(result, Err("Window activation timeout".to_string()));
    assert_eq!(actions.last(), Some(&Action::Finish(Err(ReplacementError::ActivationTimeout))));
    assert_eq!(system.clipboard, Some("hello".to_string()));
    assert!(system.keys.is_empty());
    assert!(system.slept.is_empty());
    assert_eq!(system.requests, 1);
    assert_eq!(system.looks, 41);
    let polls = actions.iter().filter(|a| matches!(a, Action::QueryForeground { .. })).count();
    assert_eq!(polls, 41);
}

#[test]
fn unsupported_platform_does_nothing() {
    let store = store_with("Notepad – Untitled", "abc");
    let mut system = world(vec![(20, "Notepad – Untitled")]);
    let (result, actions) = drive(&store, "hello", Platform::Unsupported, &mut system);
    assert_eq!(result, Err("Platform not supported".to_string()));
    assert_eq!(actions, vec![Action::Finish(Err(ReplacementError::PlatformUnsupported))]);
    assert_eq!(system.clipboard, None);
    assert_eq!(system.requests, 0);
    assert!(system.keys.is_empty());
}

#[test]
fn scripted_platform_stages_and_runs_the_script() {
    let store = store_with("Notes", "abc");
    let mut system = world(Vec::new());
    let (result, actions) = drive(&store, "hello", Platform::Scripted, &mut system);
    assert_eq!(result, Ok(()));
    assert_eq!(
        actions,
        vec![
            Action::StageClipboard("hello".to_string()),
            Action::RunScript(ScriptCommand::SelectAll),
            Action::RunScript(ScriptCommand::Paste),
            Action::Finish(Ok(())),
        ]
    );
    assert_eq!(system.clipboard, Some("hello".to_string()));
    assert!(system.keys.is_empty());
    assert_eq!(system.requests, 0);
}

#[test]
fn scripted_platform_stops_when_the_clipboard_fails() {
    let store = store_with("Notes", "abc");
    let mut system = world(Vec::new());
    system.clipboard_works = false;
    let (result, actions) = drive(&store, "hello", Platform::Scripted, &mut system);
    assert_eq!(result, Err("Failed to set clipboard".to_string()));
    assert_eq!(actions.len(), 2);
    assert!(system.scripts.is_empty());
}

#[test]
fn scripted_platform_goes_on_when_a_command_fails() {
    let store = store_with("Notes", "abc");
    let mut system = world(Vec::new());
    system.scripts_work = false;
    let (result, _) = drive(&store, "hello", Platform::Scripted, &mut system);
    assert_eq!(result, Ok(()));
    assert_eq!(system.scripts, vec![ScriptCommand::SelectAll, ScriptCommand::Paste]);
}

#[test]
fn keys_that_fail_are_neither_repeated_nor_the_end() {
    let store = store_with("Notepad – Untitled", "abc");
    let mut system = world(vec![(20, "Notepad – Untitled")]);
    system.keys_work = false;
    let (result, _) = drive(&store, "hello", Platform::KeyInjection, &mut system);
    assert_eq!(result, Ok(()));
    assert_eq!(system.keys, key_sequence());
    assert_eq!(system.slept, vec![300 * MS, 100 * MS, 50 * MS]);
}

#[test]
fn replacement_begins_by_listing_the_windows() {
    let (state, action) = begun("Notepad – Untitled", Platform::KeyInjection);
    assert_eq!(action, Action::EnumerateWindows);
    assert_eq!(state.phase(), Phase::Resolving);
    assert_eq!(state.platform(), Platform::KeyInjection);
    assert_eq!(state.window_id(), "Notepad – Untitled");
    assert_eq!(state.new_text(), "hello");
    assert_eq!(state.outcome(), None);
    assert_eq!(state.report(), None);
}

#[test]
fn phases_follow_one_another() {
    let (state, _) = begun("Notepad – Untitled", Platform::KeyInjection);
    let target = WindowHandle(20);
    let (state, action) = state.step(notepad());
    assert_eq!(state.phase(), Phase::Validating { target });
    assert_eq!(action, Action::CheckWindow(target));
    let (state, action) = state.step(Event::Liveness(true));
    assert_eq!(state.phase(), Phase::Staging { target });
    assert_eq!(action, Action::StageClipboard("hello".to_string()));
    let (state, action) = state.step(Event::ClipboardStaged(true));
    assert_eq!(state.phase(), Phase::Activating { target, state: ActivationState::Requested });
    assert_eq!(action, Action::RequestForeground(target));
    let (state, action) = state.step(Event::ForegroundRequested(true));
    assert_eq!(state.phase(), Phase::Activating { target, state: ActivationState::Polling });
    assert_eq!(action, Action::QueryForeground { after: 0 });
    let (state, action) =
        state.step(Event::Foreground(Observation { foreground: WindowHandle(1), elapsed: 5 }));
    assert_eq!(state.phase(), Phase::Activating { target, state: ActivationState::Polling });
    assert_eq!(action, Action::QueryForeground { after: 50 * MS });
    let (state, action) =
        state.step(Event::Foreground(Observation { foreground: target, elapsed: 60 * MS }));
    assert_eq!(state.phase(), Phase::Settling);
    assert_eq!(action, Action::Sleep(300 * MS));
    let (state, action) = state.step(Event::Slept);
    assert_eq!(action, Action::SendKey(key(Key::Erase, KeyMotion::Down)));
    assert_eq!(state.outcome(), None);
}

#[test]
fn events_that_are_not_awaited_change_nothing() {
    let (state, _) = begun("Notepad – Untitled", Platform::KeyInjection);
    let (state, action) = state.step(Event::Liveness(true));
    assert_eq!(action, Action::Idle);
    assert_eq!(state.phase(), Phase::Resolving);
    let (state, action) = state.step(Event::KeySent(true));
    assert_eq!(action, Action::Idle);
    let (state, action) = state.step(Event::Slept);
    assert_eq!(action, Action::Idle);
    assert_eq!(state.phase(), Phase::Resolving);
    let (state, _) = state.step(notepad());
    let (state, action) = state.step(notepad());
    assert_eq!(action, Action::Idle);
    assert_eq!(state.phase(), Phase::Validating { target: WindowHandle(20) });
    let (state, _) = state.step(Event::Liveness(true));
    let (state, action) = state.step(Event::ForegroundRequested(true));
    assert_eq!(action, Action::Idle);
    assert_eq!(state.phase(), Phase::Staging { target: WindowHandle(20) });
}

#[test]
fn no_key_is_sent_for_an_event_out_of_turn() {
    let (state, _) = begun("Notepad – Untitled", Platform::KeyInjection);
    let target = WindowHandle(20);
    let (state, _) = state.step(notepad());
    let (state, _) = state.step(Event::Liveness(true));
    let (state, _) = state.step(Event::ClipboardStaged(true));
    let (state, _) = state.step(Event::ForegroundRequested(true));
    let (state, _) = state.step(Event::Foreground(Observation { foreground: target, elapsed: 1 }));
    let (state, action) = state.step(Event::KeySent(true));
    assert_eq!(action, Action::Idle);
    assert_eq!(state.phase(), Phase::Settling);
    let (state, first) = state.step(Event::Slept);
    assert_eq!(first, Action::SendKey(key(Key::Erase, KeyMotion::Down)));
    let (state, action) = state.step(Event::Slept);
    assert_eq!(action, Action::Idle);
    let (state, second) = state.step(Event::KeySent(false));
    assert_eq!(second, Action::SendKey(key(Key::Erase, KeyMotion::Up)));
    let (state, third) = state.step(Event::KeySent(true));
    assert_eq!(third, Action::Sleep(100 * MS));
    let (_, action) = state.step(Event::KeySent(true));
    assert_eq!(action, Action::Idle);
}

#[test]
fn ended_replacement_answers_everything_with_its_outcome() {
    let (state, _) = begun("Ghost Window", Platform::KeyInjection);
    let (state, action) = state.step(Event::Windows(Vec::new()));
    assert_eq!(action, Action::Finish(Err(ReplacementError::WindowNotFound)));
    let (state, action) = state.step(notepad());
    assert_eq!(action, Action::Finish(Err(ReplacementError::WindowNotFound)));
    let (state, action) = state.step(Event::Slept);
    assert_eq!(action, Action::Finish(Err(ReplacementError::WindowNotFound)));
    assert_eq!(state.phase(), Phase::Done(Err(ReplacementError::WindowNotFound)));
    assert_eq!(state.report(), Some(Err("Window not found: Ghost Window".to_string())));
}

#[test]
fn timeout_needs_more_than_the_timeout_to_have_passed() {
    let (state, _) = begun("Notepad – Untitled", Platform::KeyInjection);
    let (state, _) = state.step(notepad());
    let (state, _) = state.step(Event::Liveness(true));
    let (state, _) = state.step(Event::ClipboardStaged(true));
    let (state, _) = state.step(Event::ForegroundRequested(true));
    let other = WindowHandle(1);
    let (state, action) =
        state.step(Event::Foreground(Observation { foreground: other, elapsed: 2000 * MS }));
    assert_eq!(action, Action::QueryForeground { after: 50 * MS });
    let (state, action) =
        state.step(Event::Foreground(Observation { foreground: other, elapsed: 2000 * MS + 1 }));
    assert_eq!(action, Action::Finish(Err(ReplacementError::ActivationTimeout)));
    assert_eq!(state.report(), Some(Err("Window activation timeout".to_string())));
}

#[test]
fn reference_timing_has_the_usual_times() {
    let timing = Timing::reference();
    assert_eq!(timing.activation.poll_interval, 50 * MS);
    assert_eq!(timing.activation.timeout, 2000 * MS);
    assert_eq!(timing.activation.settle, 300 * MS);
    assert_eq!(timing.input.erase_settle, 100 * MS);
    assert_eq!(timing.input.paste_hold, 50 * MS);
}

#[test]
fn other_timing_is_followed() {
    let mut timing = Timing::reference();
    timing.activation.poll_interval = 7;
    timing.activation.timeout = 20;
    timing.activation.settle = 3;
    timing.input.erase_settle = 2;
    timing.input.paste_hold = 1;
    let store = store_with("Notepad", "abc");
    let (state, _) =
        replace_selected_text(&store, "hello".to_string(), Platform::KeyInjection, timing);
    let target = WindowHandle(20);
    let (state, _) = state.step(notepad());
    let (state, _) = state.step(Event::Liveness(true));
    let (state, _) = state.step(Event::ClipboardStaged(true));
    let (state, _) = state.step(Event::ForegroundRequested(true));
    let (state, action) =
        state.step(Event::Foreground(Observation { foreground: WindowHandle(1), elapsed: 20 }));
    assert_eq!(action, Action::QueryForeground { after: 7 });
    let (state, action) =
        state.step(Event::Foreground(Observation { foreground: target, elapsed: 21 }));
    assert_eq!(action, Action::Sleep(3));
    let (state, _) = state.step(Event::Slept);
    let (state, _) = state.step(Event::KeySent(true));
    let (state, action) = state.step(Event::KeySent(true));
    assert_eq!(action, Action::Sleep(2));
    let (state, _) = state.step(Event::Slept);
    let (state, _) = state.step(Event::KeySent(true));
    let (_, action) = state.step(Event::KeySent(true));
    assert_eq!(action, Action::Sleep(1));
}

#[test]
fn action_clone_is_equal() {
    let actions = [
        Action::EnumerateWindows,
        Action::CheckWindow(WindowHandle(3)),
        Action::StageClipboard("text".to_string()),
        Action::RequestForeground(WindowHandle(3)),
        Action::QueryForeground { after: 9 },
        Action::Sleep(4),
        Action::SendKey(key(Key::Paste, KeyMotion::Up)),
        Action::RunScript(ScriptCommand::Paste),
        Action::Finish(Ok(())),
        Action::Finish(Err(ReplacementError::ClipboardError)),
        Action::Idle,
    ];
    for action in actions.iter() {
        assert_eq!(&action.clone(), action);
    }
}

#[test]
fn the_latest_capture_is_the_one_replaced() {
    let mut store = store_with("Paint – Untitled", "old");
    record_selection(&mut store, "Notepad – Untitled".to_string(), (0, 0, 1, 1), "new".to_string());
    let mut system = world(vec![(10, "Paint – Untitled"), (20, "Notepad – Untitled (2)")]);
    let (result, _) = drive(&store, "hello", Platform::KeyInjection, &mut system);
    assert_eq!(result, Ok(()));
    assert_eq!(system.target, Some(WindowHandle(20)));
}
