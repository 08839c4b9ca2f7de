//! Whole replacements: what was asked of the system from the first action
//! to the last, and what holds of it whatever the system answered.
//!
//! Nothing here runs. A replacement is followed through any sequence of
//! events, fitting or not, and the actions that it called for are looked at
//! as a whole: which keys were sent and in what order, what was put on the
//! clipboard, and what had been seen of the window before the first key.

use crate::activation::{
    lemma_timeout_within_max_polls, times_out_at, ActivationState, Observation,
};
use crate::error::ReplacementError;
use crate::input::{
    input_plan, key_sequence, keys_among, lemma_plan_keys, InputCommand, InputStep, KeyEvent,
    ScriptCommand,
};
use crate::replace::{
    begin, step_model, ActionView, EventView, Phase, Platform, ReplacementView, Timing,
};
use crate::resolver::{resolve, WindowHandle};
use crate::selection::SelectionInfoView;
use vstd::prelude::*;

verus! {

/// The replacement after `events`, taken in their order, and the actions
/// that answered them, one for each event.
pub open spec fn run(s: ReplacementView, events: Seq<EventView>) -> (
    ReplacementView,
    Seq<ActionView>,
)
    decreases events.len(),
{
    if events.len() == 0 {
        (s, Seq::empty())
    } else {
        let before = run(s, events.drop_last());
        let last = step_model(before.0, events.last());
        (last.0, before.1.push(last.1))
    }
}

/// A replacement from its beginning through `events`: where it stands, and
/// every action that it called for. The first action is the one with which
/// it began; the action at index `i + 1` answered `events[i]`.
pub open spec fn history(
    record: Option<SelectionInfoView>,
    new_text: Seq<char>,
    platform: Platform,
    timing: Timing,
    events: Seq<EventView>,
) -> (ReplacementView, Seq<ActionView>) {
    let start = begin(record, new_text, platform, timing);
    let rest = run(start.0, events);
    (rest.0, seq![start.1] + rest.1)
}

/// The key events that `actions` sent, in their order.
pub open spec fn keys_sent(actions: Seq<ActionView>) -> Seq<KeyEvent>
    decreases actions.len(),
{
    if actions.len() == 0 {
        Seq::empty()
    } else {
        let before = keys_sent(actions.drop_last());
        match actions.last() {
            ActionView::SendKey(event) => before.push(event),
            _ => before,
        }
    }
}

/// The keys that `actions` sent and the rests that they called for, in
/// their order.
pub open spec fn inputs_issued(actions: Seq<ActionView>) -> Seq<InputCommand>
    decreases actions.len(),
{
    if actions.len() == 0 {
        Seq::empty()
    } else {
        let before = inputs_issued(actions.drop_last());
        match actions.last() {
            ActionView::SendKey(event) => before.push(InputCommand::Key(event)),
            ActionView::Sleep(time) => before.push(InputCommand::Delay(time)),
            _ => before,
        }
    }
}

/// The commands that `actions` gave to the scripting facility, in their
/// order.
pub open spec fn scripts_run(actions: Seq<ActionView>) -> Seq<ScriptCommand>
    decreases actions.len(),
{
    if actions.len() == 0 {
        Seq::empty()
    } else {
        let before = scripts_run(actions.drop_last());
        match actions.last() {
            ActionView::RunScript(command) => before.push(command),
            _ => before,
        }
    }
}

/// The texts that `actions` put on the clipboard, in their order.
pub open spec fn texts_staged(actions: Seq<ActionView>) -> Seq<Seq<char>>
    decreases actions.len(),
{
    if actions.len() == 0 {
        Seq::empty()
    } else {
        let before = texts_staged(actions.drop_last());
        match actions.last() {
            ActionView::StageClipboard(text) => before.push(text),
            _ => before,
        }
    }
}

/// The windows that `actions` asked to be brought to the front, in their
/// order.
pub open spec fn foreground_requests(actions: Seq<ActionView>) -> Seq<WindowHandle>
    decreases actions.len(),
{
    if actions.len() == 0 {
        Seq::empty()
    } else {
        let before = foreground_requests(actions.drop_last());
        match actions.last() {
            ActionView::RequestForeground(window) => before.push(window),
            _ => before,
        }
    }
}

/// Whether an action asks anything of the system.
pub open spec fn touches_system(action: ActionView) -> bool {
    !(action is Finish) && !(action is Idle)
}

/// The event at index `at` is a list of windows in which `window_id`
/// resolves to `target`.
pub open spec fn resolved_at(
    window_id: Seq<char>,
    past: Seq<EventView>,
    at: int,
    target: WindowHandle,
) -> bool {
    &&& 0 <= at < past.len()
    &&& past[at] matches EventView::Windows(windows)
    &&& resolve(windows, window_id) == Some(target)
}

/// The event at index `at` says that the window lives.
pub open spec fn alive_at(past: Seq<EventView>, at: int) -> bool {
    &&& 0 <= at < past.len()
    &&& past[at] == EventView::Liveness(true)
}

/// The event at index `at` says that `target` is in front.
pub open spec fn in_front_at(past: Seq<EventView>, at: int, target: WindowHandle) -> bool {
    &&& 0 <= at < past.len()
    &&& past[at] matches EventView::Foreground(seen)
    &&& seen.foreground == target
}

/// Among `past` a window was found for `window_id`.
pub open spec fn found(window_id: Seq<char>, past: Seq<EventView>, target: WindowHandle) -> bool {
    exists|a: int| resolved_at(window_id, past, a, target)
}

/// Among `past` a window was found for `window_id` and, later, said to
/// live.
pub open spec fn validated(window_id: Seq<char>, past: Seq<EventView>, target: WindowHandle)
    -> bool {
    exists|a: int, b: int|
        a < b && #[trigger] resolved_at(window_id, past, a, target) && #[trigger] alive_at(past, b)
}

/// Among `past` a window was found for `window_id`, later said to live,
/// and later still seen in front.
pub open spec fn confirmed_as(window_id: Seq<char>, past: Seq<EventView>, target: WindowHandle)
    -> bool {
    exists|a: int, b: int, c: int|
        a < b < c && #[trigger] resolved_at(window_id, past, a, target) && #[trigger] alive_at(
            past,
            b,
        ) && #[trigger] in_front_at(past, c, target)
}

/// Among `past` some window was found for `window_id`, later said to live,
/// and later still seen in front.
pub open spec fn confirmed(window_id: Seq<char>, past: Seq<EventView>) -> bool {
    exists|target: WindowHandle| confirmed_as(window_id, past, target)
}

/// Whether a failure comes before anything is put on the clipboard.
pub open spec fn fails_before_staging(error: ReplacementError) -> bool {
    ||| error is NoSelectionInfo
    ||| error is PlatformUnsupported
    ||| error is WindowNotFound
    ||| error is InvalidWindowHandle
}

/// The commands of the scripted replacement, in their order.
pub open spec fn script_sequence() -> Seq<ScriptCommand> {
    seq![ScriptCommand::SelectAll, ScriptCommand::Paste]
}

/// What holds of a replacement that began with a capture, in each of its
/// phases: of what it has asked so far and of what it has been told.
pub open spec fn consistent(s: ReplacementView, past: Seq<EventView>, actions: Seq<ActionView>)
    -> bool {
    let keys = keys_sent(actions);
    let scripts = scripts_run(actions);
    let texts = texts_staged(actions);
    let requests = foreground_requests(actions);
    let inputs = inputs_issued(actions);
    let none = Seq::<KeyEvent>::empty();
    let no_inputs = Seq::<InputCommand>::empty();
    let no_scripts = Seq::<ScriptCommand>::empty();
    let no_requests = Seq::<WindowHandle>::empty();
    let settle = seq![InputCommand::Delay(s.timing.activation.settle)];
    match s.phase {
        Phase::Resolving => {
            &&& s.platform is KeyInjection
            &&& inputs == no_inputs
            &&& keys == none && scripts == no_scripts && requests == no_requests
            &&& texts == Seq::<Seq<char>>::empty()
        },
        Phase::Validating { target } => {
            &&& s.platform is KeyInjection
            &&& inputs == no_inputs
            &&& keys == none && scripts == no_scripts && requests == no_requests
            &&& texts == Seq::<Seq<char>>::empty()
            &&& found(s.window_id, past, target)
        },
        Phase::Staging { target } => {
            &&& s.platform is KeyInjection
            &&& inputs == no_inputs
            &&& keys == none && scripts == no_scripts && requests == no_requests
            &&& texts == seq![s.new_text]
            &&& validated(s.window_id, past, target)
        },
        Phase::Activating { target, state } => {
            &&& s.platform is KeyInjection
            &&& inputs == no_inputs
            &&& keys == none && scripts == no_scripts && requests == seq![target]
            &&& texts == seq![s.new_text]
            &&& validated(s.window_id, past, target)
            &&& (state is Requested || state is Polling)
        },
        Phase::Settling => {
            &&& s.platform is KeyInjection
            &&& inputs == settle
            &&& keys == none && scripts == no_scripts && requests.len() == 1
            &&& texts == seq![s.new_text]
            &&& confirmed_as(s.window_id, past, requests[0])
        },
        Phase::Synthesizing { step } => {
            &&& s.platform is KeyInjection
            &&& keys == keys_among(input_plan(s.timing.input).take(step.index() + 1))
            &&& inputs == settle + input_plan(s.timing.input).take(step.index() + 1)
            &&& scripts == no_scripts && requests.len() == 1
            &&& texts == seq![s.new_text]
            &&& confirmed_as(s.window_id, past, requests[0])
        },
        Phase::ScriptStaging => {
            &&& s.platform is Scripted
            &&& inputs == no_inputs
            &&& keys == none && scripts == no_scripts && requests == no_requests
            &&& texts == seq![s.new_text]
        },
        Phase::Scripting { command } => {
            &&& s.platform is Scripted
            &&& inputs == no_inputs
            &&& keys == none && requests == no_requests
            &&& scripts == (match command {
                ScriptCommand::SelectAll => seq![ScriptCommand::SelectAll],
                ScriptCommand::Paste => script_sequence(),
            })
            &&& texts == seq![s.new_text]
        },
        Phase::Done(Ok(())) => {
            &&& texts == seq![s.new_text]
            &&& match s.platform {
                Platform::KeyInjection => {
                    &&& keys == key_sequence()
                    &&& inputs == settle + input_plan(s.timing.input)
                    &&& scripts == no_scripts
                    &&& requests.len() == 1
                    &&& confirmed_as(s.window_id, past, requests[0])
                },
                Platform::Scripted => {
                    &&& keys == none
                    &&& inputs == no_inputs
                    &&& scripts == script_sequence()
                    &&& requests == no_requests
                },
                Platform::Unsupported => false,
            }
        },
        Phase::Done(Err(error)) => {
            &&& keys == none && scripts == no_scripts
            &&& inputs == no_inputs
            &&& texts == if fails_before_staging(error) {
                Seq::<Seq<char>>::empty()
            } else {
                seq![s.new_text]
            }
            &&& requests.len() == if error is ActivationRequestFailed || error
                is ActivationTimeout {
                1nat
            } else {
                0nat
            }
        },
    }
}

/// A run answers every event with one action, and a run through more
/// events goes on from where the run through fewer stood.
pub proof fn lemma_run_extends(s: ReplacementView, events: Seq<EventView>, i: int)
    requires
        0 <= i < events.len(),
    ensures
        run(s, events).1.len() == events.len(),
        run(s, events.take(i)).1 == run(s, events).1.take(i),
        run(s, events).1[i] == step_model(run(s, events.take(i)).0, events[i]).1,
    decreases events.len(),
{
    let shorter = events.drop_last();
    if i == events.len() - 1 {
        assert(events.take(i) =~= shorter);
        lemma_run_len(s, shorter);
        assert(run(s, events).1.take(i) =~= run(s, shorter).1);
    } else {
        lemma_run_extends(s, shorter, i);
        assert(shorter.take(i) =~= events.take(i));
        assert(run(s, events).1.take(i) =~= run(s, shorter).1.take(i));
    }
    lemma_run_len(s, events);
}

/// A run answers every event with one action.
pub proof fn lemma_run_len(s: ReplacementView, events: Seq<EventView>)
    ensures
        run(s, events).1.len() == events.len(),
    decreases events.len(),
{
    if events.len() > 0 {
        lemma_run_len(s, events.drop_last());
    }
}

/// A run changes nothing but the phase.
pub proof fn lemma_run_keeps_subject(s: ReplacementView, events: Seq<EventView>)
    ensures
        run(s, events).0 == (ReplacementView { phase: run(s, events).0.phase, ..s }),
    decreases events.len(),
{
    if events.len() > 0 {
        lemma_run_keeps_subject(s, events.drop_last());
    }
}

/// One more action adds to what was sent, run, staged and requested only
/// what it sends, runs, stages or requests itself.
proof fn lemma_one_more_action(actions: Seq<ActionView>, action: ActionView)
    ensures
        inputs_issued(actions.push(action)) == (match action {
            ActionView::SendKey(event) => inputs_issued(actions).push(InputCommand::Key(event)),
            ActionView::Sleep(time) => inputs_issued(actions).push(InputCommand::Delay(time)),
            _ => inputs_issued(actions),
        }),
        keys_sent(actions.push(action)) == (match action {
            ActionView::SendKey(event) => keys_sent(actions).push(event),
            _ => keys_sent(actions),
        }),
        scripts_run(actions.push(action)) == (match action {
            ActionView::RunScript(command) => scripts_run(actions).push(command),
            _ => scripts_run(actions),
        }),
        texts_staged(actions.push(action)) == (match action {
            ActionView::StageClipboard(text) => texts_staged(actions).push(text),
            _ => texts_staged(actions),
        }),
        foreground_requests(actions.push(action)) == (match action {
            ActionView::RequestForeground(window) => foreground_requests(actions).push(window),
            _ => foreground_requests(actions),
        }),
{
    assert(actions.push(action).drop_last() =~= actions);
}

/// A single action sends, runs, stages and requests what it says.
proof fn lemma_first_action(action: ActionView)
    ensures
        inputs_issued(seq![action]) == (match action {
            ActionView::SendKey(event) => seq![InputCommand::Key(event)],
            ActionView::Sleep(time) => seq![InputCommand::Delay(time)],
            _ => Seq::empty(),
        }),
        keys_sent(seq![action]) == (match action {
            ActionView::SendKey(event) => seq![event],
            _ => Seq::empty(),
        }),
        scripts_run(seq![action]) == (match action {
            ActionView::RunScript(command) => seq![command],
            _ => Seq::empty(),
        }),
        texts_staged(seq![action]) == (match action {
            ActionView::StageClipboard(text) => seq![text],
            _ => Seq::empty(),
        }),
        foreground_requests(seq![action]) == (match action {
            ActionView::RequestForeground(window) => seq![window],
            _ => Seq::empty(),
        }),
{
    let none = Seq::<ActionView>::empty();
    assert(seq![action] =~= none.push(action));
    lemma_one_more_action(none, action);
    assert(keys_sent(none) =~= Seq::empty());
    assert(scripts_run(none) =~= Seq::empty());
    assert(texts_staged(none) =~= Seq::empty());
    assert(foreground_requests(none) =~= Seq::empty());
    assert(inputs_issued(none) =~= Seq::empty());
}

/// What was seen stays seen when more events follow.
proof fn lemma_past_grows(
    window_id: Seq<char>,
    past: Seq<EventView>,
    event: EventView,
    target: WindowHandle,
)
    ensures
        found(window_id, past, target) ==> found(window_id, past.push(event), target),
        validated(window_id, past, target) ==> validated(window_id, past.push(event), target),
        confirmed_as(window_id, past, target) ==> confirmed_as(
            window_id,
            past.push(event),
            target,
        ),
{
    let more = past.push(event);
    if found(window_id, past, target) {
        let a = choose|a: int| resolved_at(window_id, past, a, target);
        assert(resolved_at(window_id, more, a, target));
    }
    if validated(window_id, past, target) {
        let (a, b) = choose|a: int, b: int|
            a < b && #[trigger] resolved_at(window_id, past, a, target) && #[trigger] alive_at(
                past,
                b,
            );
        assert(resolved_at(window_id, more, a, target) && alive_at(more, b));
    }
    if confirmed_as(window_id, past, target) {
        let (a, b, c) = choose|a: int, b: int, c: int|
            a < b < c && #[trigger] resolved_at(window_id, past, a, target) && #[trigger] alive_at(
                past,
                b,
            ) && #[trigger] in_front_at(past, c, target);
        assert(resolved_at(window_id, more, a, target) && alive_at(more, b) && in_front_at(
            more,
            c,
            target,
        ));
    }
}

/// The keys sent up to a step and the command of the next step make the
/// keys sent up to the next step.
proof fn lemma_next_step_keys(step: InputStep, following: InputStep, timing: Timing)
    requires
        step.successor() == Some(following),
    ensures
        keys_among(input_plan(timing.input).take(following.index() + 1)) == (
        match following.command_spec(timing.input) {
            InputCommand::Key(event) => keys_among(
                input_plan(timing.input).take(step.index() + 1),
            ).push(event),
            InputCommand::Delay(_) => keys_among(input_plan(timing.input).take(step.index() + 1)),
        }),
{
    let plan = input_plan(timing.input);
    assert(plan.take(following.index() + 1).drop_last() =~= plan.take(step.index() + 1));
}

/// One step keeps a replacement consistent.
proof fn lemma_step_consistent(
    s: ReplacementView,
    past: Seq<EventView>,
    actions: Seq<ActionView>,
    event: EventView,
)
    requires
        consistent(s, past, actions),
    ensures
        consistent(step_model(s, event).0, past.push(event), actions.push(step_model(s, event).1)),
{
    let next = step_model(s, event);
    let more = past.push(event);
    let at = past.len() as int;
    lemma_one_more_action(actions, next.1);
    let requests = foreground_requests(actions);
    match s.phase {
        Phase::Resolving => {
            if let EventView::Windows(windows) = event {
                if let Some(target) = resolve(windows, s.window_id) {
                    assert(resolved_at(s.window_id, more, at, target));
                }
            }
        },
        Phase::Validating { target } => {
            lemma_past_grows(s.window_id, past, event, target);
            if event == EventView::Liveness(true) {
                let a = choose|a: int| resolved_at(s.window_id, past, a, target);
                assert(resolved_at(s.window_id, more, a, target) && alive_at(more, at));
            }
        },
        Phase::Staging { target } => {
            lemma_past_grows(s.window_id, past, event, target);
            assert(Seq::<WindowHandle>::empty().push(target) =~= seq![target]);
        },
        Phase::Activating { target, state } => {
            lemma_past_grows(s.window_id, past, event, target);
            assert(Seq::<InputCommand>::empty().push(
                InputCommand::Delay(s.timing.activation.settle),
            ) =~= seq![InputCommand::Delay(s.timing.activation.settle)]);
            if let EventView::Foreground(seen) = event {
                if state is Polling && seen.foreground == target {
                    let (a, b) = choose|a: int, b: int|
                        a < b && #[trigger] resolved_at(s.window_id, past, a, target)
                            && #[trigger] alive_at(past, b);
                    assert(resolved_at(s.window_id, more, a, target) && alive_at(more, b)
                        && in_front_at(more, at, target));
                }
            }
        },
        Phase::Settling => {
            lemma_past_grows(s.window_id, past, event, requests[0]);
            let plan = input_plan(s.timing.input);
            let settle = seq![InputCommand::Delay(s.timing.activation.settle)];
            assert(plan.take(1).drop_last() =~= plan.take(0));
            assert(keys_among(plan.take(0)) =~= Seq::empty());
            assert(settle.push(plan[0]) =~= settle + plan.take(1));
        },
        Phase::Synthesizing { step } => {
            lemma_past_grows(s.window_id, past, event, requests[0]);
            let plan = input_plan(s.timing.input);
            let settle = seq![InputCommand::Delay(s.timing.activation.settle)];
            match step.successor() {
                Some(following) => {
                    lemma_next_step_keys(step, following, s.timing);
                    assert((settle + plan.take(step.index() + 1)).push(plan[following.index()])
                        =~= settle + plan.take(following.index() + 1));
                },
                None => {
                    assert(plan.take(step.index() + 1) =~= plan);
                    lemma_plan_keys(s.timing.input);
                },
            }
        },
        Phase::ScriptStaging => {
            assert(Seq::<ScriptCommand>::empty().push(ScriptCommand::SelectAll) =~= seq![
                ScriptCommand::SelectAll,
            ]);
        },
        Phase::Scripting { command } => {
            assert(seq![ScriptCommand::SelectAll].push(ScriptCommand::Paste) =~= script_sequence());
        },
        Phase::Done(_) => {
            if requests.len() == 1 {
                lemma_past_grows(s.window_id, past, event, requests[0]);
            }
        },
    }
}

/// A replacement that began with a capture is consistent at its beginning.
proof fn lemma_begin_consistent(
    record: SelectionInfoView,
    new_text: Seq<char>,
    platform: Platform,
    timing: Timing,
)
    ensures
        consistent(
            begin(Some(record), new_text, platform, timing).0,
            Seq::empty(),
            seq![begin(Some(record), new_text, platform, timing).1],
        ),
{
    lemma_first_action(begin(Some(record), new_text, platform, timing).1);
}

/// A replacement that began with a capture is consistent all along.
pub proof fn lemma_history_consistent(
    record: SelectionInfoView,
    new_text: Seq<char>,
    platform: Platform,
    timing: Timing,
    events: Seq<EventView>,
)
    ensures
        consistent(
            history(Some(record), new_text, platform, timing, events).0,
            events,
            history(Some(record), new_text, platform, timing, events).1,
        ),
        history(Some(record), new_text, platform, timing, events).0.window_id == record.window_id,
        history(Some(record), new_text, platform, timing, events).0.new_text == new_text,
        history(Some(record), new_text, platform, timing, events).0.platform == platform,
        history(Some(record), new_text, platform, timing, events).0.timing == timing,
    decreases events.len(),
{
    let start = begin(Some(record), new_text, platform, timing);
    lemma_run_keeps_subject(start.0, events);
    if events.len() == 0 {
        lemma_begin_consistent(record, new_text, platform, timing);
        assert(seq![start.1] + Seq::<ActionView>::empty() =~= seq![start.1]);
        assert(events =~= Seq::empty());
    } else {
        let shorter = events.drop_last();
        lemma_history_consistent(record, new_text, platform, timing, shorter);
        let before = history(Some(record), new_text, platform, timing, shorter);
        lemma_step_consistent(before.0, shorter, before.1, events.last());
        assert(shorter.push(events.last()) =~= events);
        let last = step_model(before.0, events.last());
        assert(seq![start.1] + run(start.0, shorter).1.push(last.1) =~= before.1.push(last.1));
    }
}

/// Once a replacement has ended, it stays ended: whatever comes in, the
/// answer is the same `Finish`, and nothing is asked of the system.
pub proof fn lemma_ended_stays_ended(s: ReplacementView, events: Seq<EventView>, i: int)
    requires
        s.phase is Done,
        0 <= i < events.len(),
    ensures
        run(s, events).0 == s,
        run(s, events).1[i] == ActionView::Finish(s.phase->Done_0),
        !touches_system(run(s, events).1[i]),
    decreases events.len(),
{
    let shorter = events.drop_last();
    if shorter.len() > 0 {
        lemma_ended_stays_ended(s, shorter, 0);
    }
    if i < shorter.len() {
        lemma_ended_stays_ended(s, shorter, i);
    }
    lemma_run_len(s, shorter);
}

/// Without a capture nothing is done. The replacement ends at once with
/// `NoSelectionInfo`, on every platform, and whatever comes in afterwards,
/// no action ever asks anything of the system: not of the clipboard, not of
/// a window, and no input.
pub proof fn lemma_nothing_captured_nothing_done(
    new_text: Seq<char>,
    platform: Platform,
    timing: Timing,
    events: Seq<EventView>,
    i: int,
)
    requires
        0 <= i <= events.len(),
    ensures
        history(None, new_text, platform, timing, events).0.phase == Phase::Done(
            Err(ReplacementError::NoSelectionInfo),
        ),
        history(None, new_text, platform, timing, events).1[i] == ActionView::Finish(
            Err(ReplacementError::NoSelectionInfo),
        ),
        !touches_system(history(None, new_text, platform, timing, events).1[i]),
{
    let start = begin(None, new_text, platform, timing);
    lemma_run_len(start.0, events);
    if events.len() > 0 {
        lemma_ended_stays_ended(start.0, events, 0);
    }
    if i > 0 {
        lemma_ended_stays_ended(start.0, events, i - 1);
    }
}

/// Where the platform offers nothing, nothing is done. With a capture the
/// replacement ends at once with `PlatformUnsupported`, and no action ever
/// asks anything of the system.
pub proof fn lemma_unsupported_platform_nothing_done(
    record: SelectionInfoView,
    new_text: Seq<char>,
    timing: Timing,
    events: Seq<EventView>,
    i: int,
)
    requires
        0 <= i <= events.len(),
    ensures
        history(Some(record), new_text, Platform::Unsupported, timing, events).0.phase
            == Phase::Done(Err(ReplacementError::PlatformUnsupported)),
        history(Some(record), new_text, Platform::Unsupported, timing, events).1[i]
            == ActionView::Finish(Err(ReplacementError::PlatformUnsupported)),
        !touches_system(history(Some(record), new_text, Platform::Unsupported, timing, events).1[i]),
{
    let start = begin(Some(record), new_text, Platform::Unsupported, timing);
    lemma_run_len(start.0, events);
    if events.len() > 0 {
        lemma_ended_stays_ended(start.0, events, 0);
    }
    if i > 0 {
        lemma_ended_stays_ended(start.0, events, i - 1);
    }
}

/// No key is sent to a window that was not made sure of. If the action
/// that answers `events[i]` sends a key, then among the events before it a
/// window was found for the remembered title, that window was then said to
/// live, and after that it was seen in front.
pub proof fn lemma_keys_only_after_confirmation(
    record: Option<SelectionInfoView>,
    new_text: Seq<char>,
    platform: Platform,
    timing: Timing,
    events: Seq<EventView>,
    i: int,
)
    requires
        0 <= i < events.len(),
        history(record, new_text, platform, timing, events).1[i + 1] is SendKey,
    ensures
        record matches Some(info) && confirmed(info.window_id, events.take(i)),
        platform is KeyInjection,
{
    let start = begin(record, new_text, platform, timing);
    lemma_run_extends(start.0, events, i);
    let past = events.take(i);
    match record {
        None => {
            lemma_nothing_captured_nothing_done(new_text, platform, timing, events, i + 1);
        },
        Some(info) => {
            lemma_history_consistent(info, new_text, platform, timing, past);
            let before = history(record, new_text, platform, timing, past);
            let requests = foreground_requests(before.1);
            assert(before.0.phase is Settling || before.0.phase is Synthesizing);
            assert(confirmed_as(info.window_id, past, requests[0]));
        },
    }
}

/// A replacement that succeeds by sending keys has sent exactly the key
/// sequence: erase down, erase up, modifier down, paste down, paste up,
/// modifier up, each once and in this order. With the rests between them:
/// it has let the window settle, then followed the input plan from its
/// first command to its last. It has put the new text on the clipboard
/// once, and nothing else, and has asked once for the window to be brought
/// to the front.
pub proof fn lemma_success_sends_the_key_sequence(
    record: Option<SelectionInfoView>,
    new_text: Seq<char>,
    timing: Timing,
    events: Seq<EventView>,
)
    requires
        history(record, new_text, Platform::KeyInjection, timing, events).0.phase == Phase::Done(
            Ok(()),
        ),
    ensures
        keys_sent(history(record, new_text, Platform::KeyInjection, timing, events).1)
            == key_sequence(),
        inputs_issued(history(record, new_text, Platform::KeyInjection, timing, events).1)
            == seq![InputCommand::Delay(timing.activation.settle)] + input_plan(timing.input),
        texts_staged(history(record, new_text, Platform::KeyInjection, timing, events).1)
            == seq![new_text],
        foreground_requests(
            history(record, new_text, Platform::KeyInjection, timing, events).1,
        ).len() == 1,
        scripts_run(history(record, new_text, Platform::KeyInjection, timing, events).1)
            == Seq::<ScriptCommand>::empty(),
        record matches Some(info) && confirmed(info.window_id, events),
{
    match record {
        None => {
            lemma_nothing_captured_nothing_done(
                new_text,
                Platform::KeyInjection,
                timing,
                events,
                0,
            );
        },
        Some(info) => {
            lemma_history_consistent(info, new_text, Platform::KeyInjection, timing, events);
        },
    }
}

/// A replacement that succeeds by script has put the new text on the
/// clipboard once and has had the facility select all and then paste; it
/// has sent no key and has asked for no window.
pub proof fn lemma_success_runs_the_script(
    record: Option<SelectionInfoView>,
    new_text: Seq<char>,
    timing: Timing,
    events: Seq<EventView>,
)
    requires
        history(record, new_text, Platform::Scripted, timing, events).0.phase == Phase::Done(Ok(())),
    ensures
        scripts_run(history(record, new_text, Platform::Scripted, timing, events).1)
            == script_sequence(),
        texts_staged(history(record, new_text, Platform::Scripted, timing, events).1)
            == seq![new_text],
        keys_sent(history(record, new_text, Platform::Scripted, timing, events).1) == Seq::<
            KeyEvent,
        >::empty(),
{
    match record {
        None => {
            lemma_nothing_captured_nothing_done(new_text, Platform::Scripted, timing, events, 0);
        },
        Some(info) => {
            lemma_history_consistent(info, new_text, Platform::Scripted, timing, events);
        },
    }
}

/// A replacement that fails has sent no key, called for no rest and run no
/// script: the other application has had no input. If it failed before the
/// clipboard's turn, nothing was put on the clipboard either; if it failed
/// later, the new text was put there once and stays.
pub proof fn lemma_failure_leaves_target_untouched(
    record: Option<SelectionInfoView>,
    new_text: Seq<char>,
    platform: Platform,
    timing: Timing,
    events: Seq<EventView>,
    error: ReplacementError,
)
    requires
        history(record, new_text, platform, timing, events).0.phase == Phase::Done(Err(error)),
    ensures
        keys_sent(history(record, new_text, platform, timing, events).1) == Seq::<
            KeyEvent,
        >::empty(),
        inputs_issued(history(record, new_text, platform, timing, events).1) == Seq::<
            InputCommand,
        >::empty(),
        scripts_run(history(record, new_text, platform, timing, events).1) == Seq::<
            ScriptCommand,
        >::empty(),
        texts_staged(history(record, new_text, platform, timing, events).1) == if fails_before_staging(
            error,
        ) {
            Seq::<Seq<char>>::empty()
        } else {
            seq![new_text]
        },
{
    match record {
        None => {
            let start = begin(record, new_text, platform, timing);
            lemma_nothing_captured_nothing_done(new_text, platform, timing, events, 0);
            assert forall|i: int| 0 <= i < run(start.0, events).1.len() implies !touches_system(
                #[trigger] run(start.0, events).1[i],
            ) by {
                lemma_run_len(start.0, events);
                lemma_ended_stays_ended(start.0, events, i);
            }
            lemma_quiet_actions(start.1, run(start.0, events).1);
        },
        Some(info) => {
            lemma_history_consistent(info, new_text, platform, timing, events);
        },
    }
}

/// Actions that ask nothing of the system send, run and stage nothing.
proof fn lemma_quiet_actions(first: ActionView, rest: Seq<ActionView>)
    requires
        !touches_system(first),
        forall|i: int| 0 <= i < rest.len() ==> !touches_system(#[trigger] rest[i]),
    ensures
        keys_sent(seq![first] + rest) == Seq::<KeyEvent>::empty(),
        inputs_issued(seq![first] + rest) == Seq::<InputCommand>::empty(),
        scripts_run(seq![first] + rest) == Seq::<ScriptCommand>::empty(),
        texts_staged(seq![first] + rest) == Seq::<Seq<char>>::empty(),
    decreases rest.len(),
{
    if rest.len() == 0 {
        assert(seq![first] + rest =~= seq![first]);
        lemma_first_action(first);
    } else {
        lemma_quiet_actions(first, rest.drop_last());
        assert(seq![first] + rest =~= (seq![first] + rest.drop_last()).push(rest.last()));
        lemma_one_more_action(seq![first] + rest.drop_last(), rest.last());
    }
}

/// The events that tell of the looks `seen`, one for each look.
pub open spec fn looks(seen: Seq<Observation>) -> Seq<EventView> {
    Seq::new(seen.len(), |i: int| EventView::Foreground(seen[i]))
}

/// The phase in which a replacement is while its activation is in `state`,
/// having been accepted: still looking, resting, or ended by the timeout.
pub open spec fn phase_while(target: WindowHandle, state: ActivationState) -> Phase {
    match state {
        ActivationState::Activated => Phase::Settling,
        ActivationState::TimedOut => Phase::Done(Err(ReplacementError::ActivationTimeout)),
        _ => Phase::Activating { target, state: ActivationState::Polling },
    }
}

/// While a replacement waits for its window, it is where the activation
/// is: after any looks at the foreground its phase is the one that goes
/// with the state that the activation has reached.
pub proof fn lemma_polling_follows_activation(
    s: ReplacementView,
    target: WindowHandle,
    seen: Seq<Observation>,
)
    requires
        s.phase == (Phase::Activating { target, state: ActivationState::Polling }),
    ensures
        run(s, looks(seen)).0.phase == phase_while(
            target,
            ActivationState::Polling.after_observations(s.timing.activation, target, seen),
        ),
        !(ActivationState::Polling.after_observations(s.timing.activation, target, seen)
            is Requested),
        !(ActivationState::Polling.after_observations(s.timing.activation, target, seen)
            is Denied),
    decreases seen.len(),
{
    if seen.len() > 0 {
        lemma_polling_follows_activation(s, target, seen.drop_last());
        lemma_run_keeps_subject(s, looks(seen.drop_last()));
        assert(looks(seen).drop_last() =~= looks(seen.drop_last()));
        assert(looks(seen).last() == EventView::Foreground(seen.last()));
    }
}

/// Waiting for the window ends. Let a replacement be waiting for `target`,
/// let `target` never be in front, and let time pass as it should: more
/// than `k` intervals have passed at the look with index `k`. Then after at
/// most `max_polls` looks the replacement has ended with
/// `ActivationTimeout`, and until then it went on looking.
pub proof fn lemma_waiting_ends_in_timeout(
    s: ReplacementView,
    target: WindowHandle,
    seen: Seq<Observation>,
)
    requires
        s.phase == (Phase::Activating { target, state: ActivationState::Polling }),
        s.timing.activation.poll_interval > 0,
        seen.len() >= s.timing.activation.max_polls(),
        forall|k: int| 0 <= k < seen.len() ==> seen[k].foreground != target,
        forall|k: int|
            0 <= k < seen.len() ==> seen[k].elapsed > k * s.timing.activation.poll_interval,
    ensures
        exists|n: int|
            {
                &&& 1 <= n <= s.timing.activation.max_polls()
                &&& #[trigger] run(s, looks(seen).take(n)).0.phase == Phase::Done(
                    Err(ReplacementError::ActivationTimeout),
                )
                &&& forall|m: int|
                    0 <= m < n ==> (#[trigger] run(s, looks(seen).take(m))).0.phase == s.phase
            },
{
    let config = s.timing.activation;
    lemma_timeout_within_max_polls(config, target, seen);
    let n = choose|n: int| 1 <= n <= config.max_polls() && times_out_at(config, target, seen, n);
    assert(looks(seen).take(n) =~= looks(seen.take(n)));
    lemma_polling_follows_activation(s, target, seen.take(n));
    assert forall|m: int| 0 <= m < n implies (#[trigger] run(s, looks(seen).take(m))).0.phase
        == s.phase by {
        assert(looks(seen).take(m) =~= looks(seen.take(m)));
        lemma_polling_follows_activation(s, target, seen.take(m));
    }
}

} // verus!
