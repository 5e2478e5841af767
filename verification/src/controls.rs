//! Keyboard controls: which key asks for what, and how a key press changes
//! the pause and quit state and what it asks of the world.

use vstd::prelude::*;

verus! {

/// A key as the controls see it.
#[derive(Clone, Copy, Debug, PartialEq, Eq, Structural)]
pub enum KeyInput {
    Esc,
    Char(char),
    Other,
}

/// What a key asks for.
#[derive(Clone, Copy, Debug, PartialEq, Eq, Structural)]
pub enum Command {
    Quit,
    Spawn,
    ToggleGravity,
    TogglePause,
    Reset,
    Clear,
}

/// What the world has to do after a key press.
#[derive(Clone, Copy, Debug, PartialEq, Eq, Structural)]
pub enum WorldAction {
    Spawn,
    ToggleGravity,
    Reset,
    Clear,
}

/// The pause and quit state of the sandbox.
#[derive(Clone, Copy, Debug, PartialEq, Eq, Structural)]
pub struct Controls {
    pub paused: bool,
    pub should_quit: bool,
}

/// The command bound to `key`: Esc, `q` and `Q` quit; space spawns a ball;
/// `g`/`G` toggle gravity; `p`/`P` pause or resume; `r`/`R` reset the scene;
/// `c`/`C` clear the dynamic balls; every other key is unbound.
pub open spec fn spec_command(key: KeyInput) -> Option<Command> {
    match key {
        KeyInput::Esc => Some(Command::Quit),
        KeyInput::Char(c) => if c == 'q' || c == 'Q' {
            Some(Command::Quit)
        } else if c == ' ' {
            Some(Command::Spawn)
        } else if c == 'g' || c == 'G' {
            Some(Command::ToggleGravity)
        } else if c == 'p' || c == 'P' {
            Some(Command::TogglePause)
        } else if c == 'r' || c == 'R' {
            Some(Command::Reset)
        } else if c == 'c' || c == 'C' {
            Some(Command::Clear)
        } else {
            None
        },
        KeyInput::Other => None,
    }
}

/// The state after a key event and what it asks of the world. Only key
/// presses count; a pause toggle flips `paused`, a reset also resumes, and
/// quitting sets `should_quit`.
pub open spec fn spec_handle_key(state: Controls, key: KeyInput, pressed: bool) -> (
    Controls,
    Option<WorldAction>,
) {
    if !pressed {
        (state, None)
    } else {
        match spec_command(key) {
            None => (state, None),
            Some(Command::Quit) => (Controls { should_quit: true, ..state }, None),
            Some(Command::Spawn) => (state, Some(WorldAction::Spawn)),
            Some(Command::ToggleGravity) => (state, Some(WorldAction::ToggleGravity)),
            Some(Command::TogglePause) => (Controls { paused: !state.paused, ..state }, None),
            Some(Command::Reset) => (Controls { paused: false, ..state }, Some(WorldAction::Reset)),
            Some(Command::Clear) => (state, Some(WorldAction::Clear)),
        }
    }
}

/// The command bound to `key`.
pub fn command_for_key(key: KeyInput) -> (command: Option<Command>)
    ensures
        command == spec_command(key),
{
    match key {
        KeyInput::Esc => Some(Command::Quit),
        KeyInput::Char(c) => {
            if c == 'q' || c == 'Q' {
                Some(Command::Quit)
            } else if c == ' ' {
                Some(Command::Spawn)
            } else if c == 'g' || c == 'G' {
                Some(Command::ToggleGravity)
            } else if c == 'p' || c == 'P' {
                Some(Command::TogglePause)
            } else if c == 'r' || c == 'R' {
                Some(Command::Reset)
            } else if c == 'c' || c == 'C' {
                Some(Command::Clear)
            } else {
                None
            }
        },
        KeyInput::Other => None,
    }
}

impl Controls {
    /// A running sandbox that has not been asked to quit.
    pub fn new() -> (controls: Controls)
        ensures
            !controls.paused,
            !controls.should_quit,
    {
        Controls { paused: false, should_quit: false }
    }

    /// Applies a key event (`pressed` is false for a release or a repeat)
    /// and returns what the world has to do.
    pub fn handle_key(&mut self, key: KeyInput, pressed: bool) -> (action: Option<WorldAction>)
        ensures
            (*final(self), action) == spec_handle_key(*old(self), key, pressed),
    {
        if !pressed {
            return None;
        }
        match command_for_key(key) {
            None => None,
            Some(Command::Quit) => {
                self.should_quit = true;
                None
            },
            Some(Command::Spawn) => Some(WorldAction::Spawn),
            Some(Command::ToggleGravity) => Some(WorldAction::ToggleGravity),
            Some(Command::TogglePause) => {
                self.paused = !self.paused;
                None
            },
            Some(Command::Reset) => {
                self.paused = false;
                Some(WorldAction::Reset)
            },
            Some(Command::Clear) => Some(WorldAction::Clear),
        }
    }
}

/// A key release or repeat changes nothing and asks nothing of the world.
pub proof fn only_presses_count(state: Controls, key: KeyInput)
    ensures
        spec_handle_key(state, key, false) == (state, Option::<WorldAction>::None),
{
}

/// Pressing a pause key twice restores the state, and asks nothing of the
/// world.
pub proof fn pause_toggle_twice_restores(state: Controls, key: KeyInput)
    requires
        spec_command(key) == Some(Command::TogglePause),
    ensures
        spec_handle_key(spec_handle_key(state, key, true).0, key, true).0 == state,
        spec_handle_key(state, key, true).1 is None,
{
}

/// A reset always leaves the simulation running and resets the world.
pub proof fn reset_resumes(state: Controls, key: KeyInput)
    requires
        spec_command(key) == Some(Command::Reset),
    ensures
        !spec_handle_key(state, key, true).0.paused,
        spec_handle_key(state, key, true).0.should_quit == state.should_quit,
        spec_handle_key(state, key, true).1 == Some(WorldAction::Reset),
{
}

/// Once asked to quit, the sandbox stays asked to quit whatever key comes.
pub proof fn quit_is_final(state: Controls, key: KeyInput, pressed: bool)
    requires
        state.should_quit,
    ensures
        spec_handle_key(state, key, pressed).0.should_quit,
{
}

/// Only a pause key or a reset changes whether the simulation is paused.
pub proof fn pause_changes_only_by_pause_or_reset(state: Controls, key: KeyInput, pressed: bool)
    requires
        spec_command(key) != Some(Command::TogglePause),
        spec_command(key) != Some(Command::Reset),
    ensures
        spec_handle_key(state, key, pressed).0.paused == state.paused,
{
}

/// The key bindings: Esc, `q`, `Q` quit; space spawns; `g`, `G` toggle
/// gravity; `p`, `P` pause or resume; `r`, `R` reset; `c`, `C` clear; no
/// other key is bound.
pub proof fn key_bindings(c: char)
    ensures
        spec_command(KeyInput::Esc) == Some(Command::Quit),
        spec_command(KeyInput::Other) == Option::<Command>::None,
        c == 'q' || c == 'Q' ==> spec_command(KeyInput::Char(c)) == Some(Command::Quit),
        c == ' ' ==> spec_command(KeyInput::Char(c)) == Some(Command::Spawn),
        c == 'g' || c == 'G' ==> spec_command(KeyInput::Char(c)) == Some(Command::ToggleGravity),
        c == 'p' || c == 'P' ==> spec_command(KeyInput::Char(c)) == Some(Command::TogglePause),
        c == 'r' || c == 'R' ==> spec_command(KeyInput::Char(c)) == Some(Command::Reset),
        c == 'c' || c == 'C' ==> spec_command(KeyInput::Char(c)) == Some(Command::Clear),
        !(c == 'q' || c == 'Q' || c == ' ' || c == 'g' || c == 'G' || c == 'p' || c == 'P' || c
            == 'r' || c == 'R' || c == 'c' || c == 'C') ==> spec_command(KeyInput::Char(c))
            == Option::<Command>::None,
{
}

/// A press of Esc, `q` or `Q` always asks to quit, paused or not, leaves
/// the pause state alone and asks nothing of the world.
pub proof fn quit_keys_quit(state: Controls, key: KeyInput)
    requires
        key == KeyInput::Esc || key == KeyInput::Char('q') || key == KeyInput::Char('Q'),
    ensures
        spec_handle_key(state, key, true) == (Controls { paused: state.paused, should_quit: true },
        Option::<WorldAction>::None),
{
}

/// What one key event does, key by key: the sandbox is asked to quit exactly
/// when it already was or Esc, `q` or `Q` is pressed; a press of `p`/`P`
/// flips the pause, a press of `r`/`R` resumes, and nothing else changes
/// it; space, `g`/`G`, `r`/`R` and `c`/`C` presses ask the world to spawn, to
/// toggle gravity, to reset and to clear, and no other event asks anything.
pub proof fn key_event_effects(state: Controls, key: KeyInput, pressed: bool)
    ensures
        spec_handle_key(state, key, pressed).0.should_quit == (state.should_quit || (pressed && (key
            == KeyInput::Esc || key == KeyInput::Char('q') || key == KeyInput::Char('Q')))),
        spec_handle_key(state, key, pressed).0.paused == (if pressed && (key == KeyInput::Char('p')
            || key == KeyInput::Char('P')) {
            !state.paused
        } else if pressed && (key == KeyInput::Char('r') || key == KeyInput::Char('R')) {
            false
        } else {
            state.paused
        }),
        spec_handle_key(state, key, pressed).1 == (if !pressed {
            Option::<WorldAction>::None
        } else if key == KeyInput::Char(' ') {
            Some(WorldAction::Spawn)
        } else if key == KeyInput::Char('g') || key == KeyInput::Char('G') {
            Some(WorldAction::ToggleGravity)
        } else if key == KeyInput::Char('r') || key == KeyInput::Char('R') {
            Some(WorldAction::Reset)
        } else if key == KeyInput::Char('c') || key == KeyInput::Char('C') {
            Some(WorldAction::Clear)
        } else {
            Option::<WorldAction>::None
        }),
{
}

} // verus!
