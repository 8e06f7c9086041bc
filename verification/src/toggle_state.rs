//! The interaction state machine: when to mirror the screen, when to move
//! the window, when to run recognition and when to stay still.

use vstd::prelude::*;

verus! {

/// What the magnifier is doing between two toggles.
#[derive(Clone, Copy, Debug, PartialEq, Eq, Structural)]
pub enum ToggleState {
    /// Continuous mirror of the region under the cursor.
    Free,
    /// The window sticks to the cursor; the region under it is mirrored.
    MoveWindow,
    /// One recognition cycle is due on this tick.
    Capturing,
    /// The composed result stays on screen until the next toggle.
    Frozen,
}

/// An input of one tick, as far as the state machine cares.
#[derive(Clone, Copy, Debug, PartialEq, Eq, Structural)]
pub enum InputEvent {
    /// The designated toggle: the toggle key went down or the left button came up.
    Toggle,
    /// The quit key went down.
    Quit,
    /// Anything else.
    Other,
}

/// The message that a key went down.
pub const KEY_DOWN_MESSAGE: u32 = 0x0100;

/// The message that the left mouse button came up.
pub const LEFT_BUTTON_UP_MESSAGE: u32 = 0x0202;

/// The key that toggles: the space bar.
pub const TOGGLE_KEY: i32 = 0x20;

/// The key that quits: escape.
pub const QUIT_KEY: i32 = 0x1B;

/// What a window message means to the state machine: the toggle key going
/// down and the left button coming up toggle, the quit key going down
/// quits, and nothing else matters.
pub open spec fn meaning(message: u32, key: i32) -> InputEvent {
    if message == KEY_DOWN_MESSAGE && key == QUIT_KEY {
        InputEvent::Quit
    } else if message == KEY_DOWN_MESSAGE && key == TOGGLE_KEY {
        InputEvent::Toggle
    } else if message == LEFT_BUTTON_UP_MESSAGE {
        InputEvent::Toggle
    } else {
        InputEvent::Other
    }
}

/// Whether `key` is the key that toggles.
pub fn is_toggle_key(key: i32) -> (toggles: bool)
    ensures
        toggles == (key == TOGGLE_KEY),
        toggles ==> meaning(KEY_DOWN_MESSAGE, key) == InputEvent::Toggle,
{
    key == TOGGLE_KEY
}

/// Reads a window message: `message` is its kind, `key` the key it names
/// where it names one.
pub fn classify(message: u32, key: i32) -> (input: InputEvent)
    ensures
        input == meaning(message, key),
{
    if message == KEY_DOWN_MESSAGE {
        if key == QUIT_KEY {
            InputEvent::Quit
        } else if is_toggle_key(key) {
            InputEvent::Toggle
        } else {
            InputEvent::Other
        }
    } else if message == LEFT_BUTTON_UP_MESSAGE {
        InputEvent::Toggle
    } else {
        InputEvent::Other
    }
}

impl ToggleState {
    /// The successor of a state in the cycle
    /// `Free -> MoveWindow -> Capturing -> Frozen -> Free`.
    pub open spec fn successor(self) -> ToggleState {
        match self {
            ToggleState::Free => ToggleState::MoveWindow,
            ToggleState::MoveWindow => ToggleState::Capturing,
            ToggleState::Capturing => ToggleState::Frozen,
            ToggleState::Frozen => ToggleState::Free,
        }
    }

    /// The state after an input: the toggle advances, nothing else does.
    pub open spec fn after_input(self, input: InputEvent) -> ToggleState {
        if input == InputEvent::Toggle {
            self.successor()
        } else {
            self
        }
    }

    /// The state after the work of one tick: a capture is done with after
    /// its one cycle, and every other state stays.
    pub open spec fn after_tick(self) -> ToggleState {
        if self == ToggleState::Capturing {
            ToggleState::Frozen
        } else {
            self
        }
    }

    /// The state a machine starts in.
    pub fn new() -> (state: ToggleState)
        ensures
            state == ToggleState::Free,
    {
        ToggleState::Free
    }

    /// Advances one step in the cycle.
    pub fn next(self) -> (state: ToggleState)
        ensures
            state == self.successor(),
    {
        match self {
            ToggleState::Free => ToggleState::MoveWindow,
            ToggleState::MoveWindow => ToggleState::Capturing,
            ToggleState::Capturing => ToggleState::Frozen,
            ToggleState::Frozen => ToggleState::Free,
        }
    }

    /// The state after the work of one tick.
    pub fn settle(self) -> (state: ToggleState)
        ensures
            state == self.after_tick(),
    {
        match self {
            ToggleState::Capturing => ToggleState::Frozen,
            other => other,
        }
    }

    /// Applies one input to the state.
    pub fn on_input(self, input: InputEvent) -> (state: ToggleState)
        ensures
            state == self.after_input(input),
    {
        match input {
            InputEvent::Toggle => self.next(),
            _ => self,
        }
    }
}

/// The toggle, and nothing but the toggle, advances a state, and it
/// advances it to the next state of the cycle, which is another state. Four
/// toggles lead around the cycle and back.
pub proof fn lemma_only_toggle_advances(state: ToggleState, input: InputEvent)
    ensures
        input == InputEvent::Toggle ==> state.after_input(input) == state.successor(),
        input != InputEvent::Toggle ==> state.after_input(input) == state,
        state.successor() != state,
        state.successor().successor() != state,
        state.successor().successor().successor() != state,
        state.successor().successor().successor().successor() == state,
        ToggleState::Free.successor() == ToggleState::MoveWindow,
        ToggleState::MoveWindow.successor() == ToggleState::Capturing,
        ToggleState::Capturing.successor() == ToggleState::Frozen,
        ToggleState::Frozen.successor() == ToggleState::Free,
{
}

/// The state machine: the one owner of the toggle state.
#[derive(Debug)]
pub struct CaptureStateMachine {
    state: ToggleState,
}

impl View for CaptureStateMachine {
    type V = ToggleState;

    closed spec fn view(&self) -> ToggleState {
        self.state
    }
}

impl CaptureStateMachine {
    /// A machine in the state `Free`.
    pub fn new() -> (machine: CaptureStateMachine)
        ensures
            machine@ == ToggleState::Free,
    {
        CaptureStateMachine { state: ToggleState::Free }
    }

    /// The state the machine is in.
    pub fn state(&self) -> (state: ToggleState)
        ensures
            state == self@,
    {
        self.state
    }

    /// Takes the input of one tick. Only the toggle changes the state.
    pub fn handle_input(&mut self, input: InputEvent)
        ensures
            final(self)@ == old(self)@.after_input(input),
    {
        self.state = self.state.on_input(input);
    }

    /// Closes one tick, after its work is done. `recognized` says whether
    /// recognition and translation gave a text; a capture is over either
    /// way.
    pub fn finish_tick(&mut self, recognized: bool)
        ensures
            final(self)@ == old(self)@.after_tick(),
            old(self)@ == ToggleState::Capturing ==> final(self)@ == ToggleState::Frozen,
    {
        self.state = self.state.settle();
    }
}

} // verus!
