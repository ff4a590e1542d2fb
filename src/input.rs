use vstd::prelude::*;
use crate::map::Game;
use crate::object::Object;

verus! {

/// The keys that the game reacts to; every other key is `Other`.
#[derive(Clone, Copy, Debug, PartialEq, Eq, Structural)]
pub enum KeyCode {
    Enter,
    Escape,
    Up,
    Down,
    Left,
    Right,
    Other,
}

/// A key event: which key, whether it went down (not up), and whether Alt was held.
#[derive(Clone, Copy, Debug, PartialEq, Eq, Structural)]
pub struct Key {
    pub code: KeyCode,
    pub pressed: bool,
    pub alt: bool,
}

/// What the main loop must do after a key has been handled.
#[derive(Clone, Copy, Debug, PartialEq, Eq, Structural)]
pub enum KeyAction {
    /// Go on with the next frame.
    Continue,
    /// Flip the display between windowed and fullscreen, then go on.
    ToggleFullscreen,
    /// Leave the main loop.
    Exit,
}

/// The loop action that a key asks for.
pub open spec fn action_of(key: Key) -> KeyAction {
    if !key.pressed {
        KeyAction::Continue
    } else {
        match key.code {
            KeyCode::Enter => if key.alt {
                KeyAction::ToggleFullscreen
            } else {
                KeyAction::Continue
            },
            KeyCode::Escape => KeyAction::Exit,
            _ => KeyAction::Continue,
        }
    }
}

/// The move of the player that a key asks for, if any: one cell along an axis.
pub open spec fn delta_of(key: Key) -> Option<(int, int)> {
    if !key.pressed {
        None
    } else {
        match key.code {
            KeyCode::Up => Some((0, -1)),
            KeyCode::Down => Some((0, 1)),
            KeyCode::Left => Some((-1, 0)),
            KeyCode::Right => Some((1, 0)),
            _ => None,
        }
    }
}

/// Reacts to one key event: an arrow moves the player one cell (unless the
/// way is blocked), Alt+Enter asks for a fullscreen toggle, Escape asks to
/// exit. Released keys and other keys do nothing.
pub fn handle_keys(key: Key, player: &mut Object, game: &Game) -> (action: KeyAction)
    requires
        game.wf(),
    ensures
        action == action_of(key),
        *final(player) == (match delta_of(key) {
            Some(d) => old(player).moved(d.0, d.1, game),
            None => *old(player),
        }),
{
    if key.pressed {
        match key.code {
            KeyCode::Enter => {
                if key.alt {
                    return KeyAction::ToggleFullscreen;
                }
            },
            KeyCode::Escape => {
                return KeyAction::Exit;
            },
            KeyCode::Up => player.move_by(0, -1, game),
            KeyCode::Down => player.move_by(0, 1, game),
            KeyCode::Left => player.move_by(-1, 0, game),
            KeyCode::Right => player.move_by(1, 0, game),
            KeyCode::Other => {},
        }
    }
    KeyAction::Continue
}

} // verus!
