//! The input that overwrites the selection.
//!
//! With the window in front and the new text on the clipboard, the keys are
//! pressed that a user would press: the selection is cleared with the erase
//! key, and after a short rest the text is pasted with the modifier and the
//! paste key. Every key goes down and up again on its own; nothing is left
//! out when the system reports that a key could not be sent, and nothing is
//! taken back.
//!
//! Where keys cannot be sent, a scripting facility of the system does the
//! same by two commands to the application in front.
//!
//! All times are in nanoseconds.

use vstd::prelude::*;

verus! {

/// The usual rest between clearing the selection and pasting: 100 ms.
pub const ERASE_SETTLE: u64 = 100_000_000;

/// The usual time for which the paste key is held down: 50 ms.
pub const PASTE_HOLD: u64 = 50_000_000;

/// A key by what it does.
#[derive(Clone, Copy, Debug, PartialEq, Eq, Structural)]
pub enum Key {
    /// Deletes what is selected.
    Erase,
    /// Held down to make the paste key paste.
    Modifier,
    /// Pastes while the modifier is down.
    Paste,
}

/// Which way a key moves.
#[derive(Clone, Copy, Debug, PartialEq, Eq, Structural)]
pub enum KeyMotion {
    Down,
    Up,
}

/// One key going down or up.
#[derive(Clone, Copy, Debug, PartialEq, Eq, Structural)]
pub struct KeyEvent {
    pub key: Key,
    pub motion: KeyMotion,
}

/// The rests between the keys.
#[derive(Clone, Copy, Debug, PartialEq, Eq, Structural)]
pub struct InputTiming {
    /// Rest after the erase key, before the modifier goes down.
    pub erase_settle: u64,
    /// Time for which the paste key stays down.
    pub paste_hold: u64,
}

/// One thing to do while overwriting the selection.
#[derive(Clone, Copy, Debug, PartialEq, Eq, Structural)]
pub enum InputCommand {
    /// Send this key event.
    Key(KeyEvent),
    /// Let this much time pass.
    Delay(u64),
}

/// The steps of overwriting the selection, in their order.
#[derive(Clone, Copy, Debug, PartialEq, Eq, Structural)]
pub enum InputStep {
    EraseDown,
    EraseUp,
    EraseSettle,
    ModifierDown,
    PasteDown,
    PasteHold,
    PasteUp,
    ModifierUp,
}

/// What the scripting facility can be told to do.
#[derive(Clone, Copy, Debug, PartialEq, Eq, Structural)]
pub enum ScriptCommand {
    SelectAll,
    Paste,
}

/// The key events of one replacement, in the order in which they are sent.
pub open spec fn key_sequence() -> Seq<KeyEvent> {
    seq![
        KeyEvent { key: Key::Erase, motion: KeyMotion::Down },
        KeyEvent { key: Key::Erase, motion: KeyMotion::Up },
        KeyEvent { key: Key::Modifier, motion: KeyMotion::Down },
        KeyEvent { key: Key::Paste, motion: KeyMotion::Down },
        KeyEvent { key: Key::Paste, motion: KeyMotion::Up },
        KeyEvent { key: Key::Modifier, motion: KeyMotion::Up },
    ]
}

/// All that is done to overwrite the selection, keys and rests, in order.
pub open spec fn input_plan(timing: InputTiming) -> Seq<InputCommand> {
    seq![
        InputCommand::Key(KeyEvent { key: Key::Erase, motion: KeyMotion::Down }),
        InputCommand::Key(KeyEvent { key: Key::Erase, motion: KeyMotion::Up }),
        InputCommand::Delay(timing.erase_settle),
        InputCommand::Key(KeyEvent { key: Key::Modifier, motion: KeyMotion::Down }),
        InputCommand::Key(KeyEvent { key: Key::Paste, motion: KeyMotion::Down }),
        InputCommand::Delay(timing.paste_hold),
        InputCommand::Key(KeyEvent { key: Key::Paste, motion: KeyMotion::Up }),
        InputCommand::Key(KeyEvent { key: Key::Modifier, motion: KeyMotion::Up }),
    ]
}

/// The key events among `commands`, in their order.
pub open spec fn keys_among(commands: Seq<InputCommand>) -> Seq<KeyEvent>
    decreases commands.len(),
{
    if commands.len() == 0 {
        Seq::empty()
    } else {
        let before = keys_among(commands.drop_last());
        match commands.last() {
            InputCommand::Key(event) => before.push(event),
            InputCommand::Delay(_) => before,
        }
    }
}

impl InputTiming {
    /// The usual rests: 100 ms after erasing, 50 ms with the paste key down.
    pub fn reference() -> (timing: Self)
        ensures
            timing == (InputTiming { erase_settle: ERASE_SETTLE, paste_hold: PASTE_HOLD }),
    {
        InputTiming { erase_settle: ERASE_SETTLE, paste_hold: PASTE_HOLD }
    }
}

impl InputStep {
    /// The place of this step in the plan, counted from 0.
    pub open spec fn index(self) -> int {
        match self {
            InputStep::EraseDown => 0,
            InputStep::EraseUp => 1,
            InputStep::EraseSettle => 2,
            InputStep::ModifierDown => 3,
            InputStep::PasteDown => 4,
            InputStep::PasteHold => 5,
            InputStep::PasteUp => 6,
            InputStep::ModifierUp => 7,
        }
    }

    /// What is done at this step.
    pub open spec fn command_spec(self, timing: InputTiming) -> InputCommand {
        input_plan(timing)[self.index()]
    }

    /// The step after this one; `None` after the last.
    pub open spec fn successor(self) -> Option<InputStep> {
        match self {
            InputStep::EraseDown => Some(InputStep::EraseUp),
            InputStep::EraseUp => Some(InputStep::EraseSettle),
            InputStep::EraseSettle => Some(InputStep::ModifierDown),
            InputStep::ModifierDown => Some(InputStep::PasteDown),
            InputStep::PasteDown => Some(InputStep::PasteHold),
            InputStep::PasteHold => Some(InputStep::PasteUp),
            InputStep::PasteUp => Some(InputStep::ModifierUp),
            InputStep::ModifierUp => None,
        }
    }

    /// The step with which overwriting begins.
    pub fn first() -> (step: InputStep)
        ensures
            step.index() == 0,
            step == InputStep::EraseDown,
    {
        InputStep::EraseDown
    }

    /// The step after this one; `None` after the last.
    pub fn next(self) -> (following: Option<InputStep>)
        ensures
            following == self.successor(),
    {
        match self {
            InputStep::EraseDown => Some(InputStep::EraseUp),
            InputStep::EraseUp => Some(InputStep::EraseSettle),
            InputStep::EraseSettle => Some(InputStep::ModifierDown),
            InputStep::ModifierDown => Some(InputStep::PasteDown),
            InputStep::PasteDown => Some(InputStep::PasteHold),
            InputStep::PasteHold => Some(InputStep::PasteUp),
            InputStep::PasteUp => Some(InputStep::ModifierUp),
            InputStep::ModifierUp => None,
        }
    }

    /// What is done at this step: the key event to send, or the time to let
    /// pass.
    pub fn command(self, timing: &InputTiming) -> (command: InputCommand)
        ensures
            command == self.command_spec(*timing),
    {
        match self {
            InputStep::EraseDown => InputCommand::Key(
                KeyEvent { key: Key::Erase, motion: KeyMotion::Down },
            ),
            InputStep::EraseUp => InputCommand::Key(
                KeyEvent { key: Key::Erase, motion: KeyMotion::Up },
            ),
            InputStep::EraseSettle => InputCommand::Delay(timing.erase_settle),
            InputStep::ModifierDown => InputCommand::Key(
                KeyEvent { key: Key::Modifier, motion: KeyMotion::Down },
            ),
            InputStep::PasteDown => InputCommand::Key(
                KeyEvent { key: Key::Paste, motion: KeyMotion::Down },
            ),
            InputStep::PasteHold => InputCommand::Delay(timing.paste_hold),
            InputStep::PasteUp => InputCommand::Key(
                KeyEvent { key: Key::Paste, motion: KeyMotion::Up },
            ),
            InputStep::ModifierUp => InputCommand::Key(
                KeyEvent { key: Key::Modifier, motion: KeyMotion::Up },
            ),
        }
    }
}

impl ScriptCommand {
    /// The command after this one; `None` after the last.
    pub open spec fn successor(self) -> Option<ScriptCommand> {
        match self {
            ScriptCommand::SelectAll => Some(ScriptCommand::Paste),
            ScriptCommand::Paste => None,
        }
    }

    /// The command with which the scripted replacement begins.
    pub fn first() -> (command: ScriptCommand)
        ensures
            command == ScriptCommand::SelectAll,
    {
        ScriptCommand::SelectAll
    }

    /// The command after this one; `None` after the last.
    pub fn next(self) -> (following: Option<ScriptCommand>)
        ensures
            following == self.successor(),
    {
        match self {
            ScriptCommand::SelectAll => Some(ScriptCommand::Paste),
            ScriptCommand::Paste => None,
        }
    }
}

/// The steps walk the plan from its first command to its last, one by one.
pub proof fn lemma_steps_walk_the_plan(step: InputStep, timing: InputTiming)
    ensures
        input_plan(timing).len() == 8,
        0 <= step.index() < input_plan(timing).len(),
        step.successor() matches Some(following) ==> following.index() == step.index() + 1,
        step.successor() is None <==> step.index() == input_plan(timing).len() - 1,
{
}

/// The keys of the plan are the key sequence: erase down, erase up,
/// modifier down, paste down, paste up, modifier up.
pub proof fn lemma_plan_keys(timing: InputTiming)
    ensures
        keys_among(input_plan(timing)) == key_sequence(),
{
    reveal_with_fuel(keys_among, 10);
    let plan = input_plan(timing);
    assert(plan.drop_last() =~= plan.take(7));
    assert(plan.take(7).drop_last() =~= plan.take(6));
    assert(plan.take(6).drop_last() =~= plan.take(5));
    assert(plan.take(5).drop_last() =~= plan.take(4));
    assert(plan.take(4).drop_last() =~= plan.take(3));
    assert(plan.take(3).drop_last() =~= plan.take(2));
    assert(plan.take(2).drop_last() =~= plan.take(1));
    assert(plan.take(1).drop_last() =~= plan.take(0));
    assert(keys_among(plan) =~= key_sequence());
}

} // verus!
