use vstd::prelude::*;
use crate::canvas::{blank_cell, Canvas, Cell};
use crate::color::{spec_white, white, yellow, Rgb};
use crate::input::{action_of, delta_of, handle_keys, Key, KeyAction};
use crate::map::{in_bounds, Game};
use crate::object::Object;
use crate::render::{background_of, drawn_over, render};

verus! {

/// Where the main loop stands: it runs until it is told to exit.
#[derive(Clone, Copy, Debug, PartialEq, Eq, Structural)]
pub enum LoopState {
    Running,
    Exiting,
}

/// Column where the player starts.
pub const START_X: i32 = 40;

/// Row where the player starts.
pub const START_Y: i32 = 25;

/// Everything the main loop owns: the map, the objects (the player first)
/// and whether the loop still runs.
pub struct World {
    pub game: Game,
    pub objects: Vec<Object>,
    pub state: LoopState,
}

impl World {
    /// The map is well formed and there is a player.
    pub open spec fn wf(&self) -> bool {
        self.game.wf() && self.objects@.len() > 0
    }

    /// A running world on the fixed map, with `objects` (the first is the player).
    pub fn new(objects: Vec<Object>) -> (w: World)
        requires
            objects@.len() > 0,
        ensures
            w.wf(),
            w.game.is_fixture(),
            w.objects@ == objects@,
            w.state == LoopState::Running,
    {
        World { game: Game::new(), objects, state: LoopState::Running }
    }

    /// The opening position: a white player at the start cell and a yellow
    /// creature five cells to its left, on the fixed map.
    pub fn start() -> (w: World)
        ensures
            w.wf(),
            w.game.is_fixture(),
            w.objects@ == seq![
                Object { x: START_X, y: START_Y, char: '@', color: spec_white() },
                Object { x: (START_X - 5) as i32, y: START_Y, char: '@', color: Rgb { r: 255, g: 255, b: 0 } },
            ],
            w.state == LoopState::Running,
    {
        let player = Object::new(START_X, START_Y, '@', white());
        let npc = Object::new(START_X - 5, START_Y, '@', yellow());
        let objects = vec![player, npc];
        World::new(objects)
    }

    pub fn is_running(&self) -> (r: bool)
        ensures
            r == (self.state == LoopState::Running),
    {
        match self.state {
            LoopState::Running => true,
            LoopState::Exiting => false,
        }
    }

    /// The window was closed: the loop exits.
    pub fn window_closed(&mut self)
        ensures
            final(self).state == LoopState::Exiting,
            final(self).game == old(self).game,
            final(self).objects == old(self).objects,
    {
        self.state = LoopState::Exiting;
    }

    /// Handles one key while the loop runs: the player moves or the loop is
    /// told to exit (see `handle_keys`). Once exiting, keys change nothing.
    pub fn handle_key(&mut self, key: Key) -> (action: KeyAction)
        requires
            old(self).wf(),
        ensures
            final(self).wf(),
            final(self).game == old(self).game,
            old(self).state == LoopState::Exiting ==> action == KeyAction::Exit
                && final(self).objects@ == old(self).objects@
                && final(self).state == LoopState::Exiting,
            old(self).state == LoopState::Running ==> {
                &&& action == action_of(key)
                &&& final(self).objects@ == old(self).objects@.update(0, match delta_of(key) {
                    Some(d) => old(self).objects@[0].moved(d.0, d.1, &old(self).game),
                    None => old(self).objects@[0],
                })
                &&& final(self).state == (if action == KeyAction::Exit {
                    LoopState::Exiting
                } else {
                    LoopState::Running
                })
            },
    {
        if !self.is_running() {
            return KeyAction::Exit;
        }
        let mut player = self.objects[0];
        let action = handle_keys(key, &mut player, &self.game);
        self.objects.set(0, player);
        if let KeyAction::Exit = action {
            self.state = LoopState::Exiting;
        }
        action
    }

    /// Composes one frame on `con` while the loop runs: cleared, then the
    /// objects and the tile backgrounds (see `render`). Once exiting, nothing
    /// is drawn and `false` is returned.
    pub fn render_frame(&self, con: &mut Canvas) -> (drawn: bool)
        requires
            self.wf(),
            old(con).wf(),
        ensures
            final(con).wf(),
            drawn == (self.state == LoopState::Running),
            !drawn ==> *final(con) == *old(con),
            drawn ==> forall|x: int, y: int| in_bounds(x, y) ==> #[trigger] final(con).cell_at(x, y) == (Cell {
                bg: background_of(&self.game, x, y),
                ..drawn_over(self.objects@, blank_cell(), x, y)
            }),
    {
        if !self.is_running() {
            return false;
        }
        con.clear();
        render(con, &self.game, self.objects.as_slice());
        true
    }
}

} // verus!
