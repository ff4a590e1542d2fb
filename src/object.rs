use vstd::prelude::*;
use crate::canvas::{Canvas, Cell};
use crate::color::Rgb;
use crate::map::{in_bounds, Game, MAP_HEIGHT, MAP_WIDTH};

verus! {

/// A glyph on the map: the player or another creature.
#[derive(Clone, Copy, Debug, PartialEq, Eq, Structural)]
pub struct Object {
    pub x: i32,
    pub y: i32,
    pub char: char,
    pub color: Rgb,
}

impl Object {
    pub fn new(x: i32, y: i32, char: char, color: Rgb) -> (o: Object)
        ensures
            o == (Object { x, y, char, color }),
    {
        Object { x, y, char, color }
    }

    /// Whether the object stands on `(x, y)`.
    pub open spec fn at(&self, x: int, y: int) -> bool {
        self.x == x && self.y == y
    }

    /// Where a move by `(dx, dy)` leaves the object: at the destination if
    /// that is on the map and not blocked, else where it was.
    pub open spec fn moved(self, dx: int, dy: int, game: &Game) -> Object {
        if game.blocked_at(self.x + dx, self.y + dy) {
            self
        } else {
            Object { x: (self.x + dx) as i32, y: (self.y + dy) as i32, ..self }
        }
    }

    /// Moves by `(dx, dy)` unless the destination is blocked or off the map,
    /// in which case the object stays where it is.
    pub fn move_by(&mut self, dx: i32, dy: i32, game: &Game)
        requires
            game.wf(),
        ensures
            *final(self) == old(self).moved(dx as int, dy as int, game),
            final(self).char == old(self).char,
            final(self).color == old(self).color,
            game.blocked_at(old(self).x + dx, old(self).y + dy) ==> *final(self) == *old(self),
            !game.blocked_at(old(self).x + dx, old(self).y + dy) ==> final(self).x == old(self).x + dx
                && final(self).y == old(self).y + dy,
    {
        let nx: i64 = self.x as i64 + dx as i64;
        let ny: i64 = self.y as i64 + dy as i64;
        if 0 <= nx && nx < MAP_WIDTH as i64 && 0 <= ny && ny < MAP_HEIGHT as i64 {
            if !game.is_blocked(nx as i32, ny as i32) {
                self.x = nx as i32;
                self.y = ny as i32;
            }
        }
    }

    /// Draws the glyph in the object's colour at its position, over whatever
    /// glyph was there; the cell keeps its background.
    pub fn draw(&self, con: &mut Canvas)
        requires
            old(con).wf(),
        ensures
            final(con).wf(),
            final(con).foreground() == self.color,
            forall|i: int, j: int| in_bounds(i, j) ==> #[trigger] final(con).cell_at(i, j) == (
                if self.at(i, j) {
                    Cell { glyph: self.char, fg: self.color, bg: old(con).cell_at(i, j).bg }
                } else {
                    old(con).cell_at(i, j)
                }),
    {
        con.set_default_foreground(self.color);
        con.put_char(self.x, self.y, self.char);
    }
}

} // verus!
