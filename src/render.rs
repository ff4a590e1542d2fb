use vstd::prelude::*;
use crate::canvas::{Canvas, Cell};
use crate::color::{color_dark_ground, color_dark_wall, spec_dark_ground, spec_dark_wall, Rgb};
use crate::map::{in_bounds, Game, MAP_HEIGHT, MAP_WIDTH};
use crate::object::Object;

verus! {

/// Index of the last object in `objs` that stands on `(x, y)`, or -1 if none does.
pub open spec fn last_at(objs: Seq<Object>, x: int, y: int) -> int
    decreases objs.len(),
{
    if objs.len() == 0 {
        -1
    } else if objs.last().at(x, y) {
        objs.len() - 1
    } else {
        last_at(objs.drop_last(), x, y)
    }
}

/// The background that a tile is drawn with.
pub open spec fn background_of(game: &Game, x: int, y: int) -> Rgb {
    if game.opaque_at(x, y) {
        spec_dark_wall()
    } else {
        spec_dark_ground()
    }
}

/// What a cell shows once `objs` are drawn over `under`, in list order.
pub open spec fn drawn_over(objs: Seq<Object>, under: Cell, x: int, y: int) -> Cell {
    let k = last_at(objs, x, y);
    if k >= 0 {
        Cell { glyph: objs[k].char, fg: objs[k].color, bg: under.bg }
    } else {
        under
    }
}

/// Objects are stacked in list order: at any cell, what shows is the last
/// object of the list that stands there, and no object shows where none stands.
pub proof fn lemma_last_drawn_shows(objs: Seq<Object>, x: int, y: int)
    ensures
        -1 <= last_at(objs, x, y) < objs.len(),
        last_at(objs, x, y) >= 0 ==> objs[last_at(objs, x, y)].at(x, y),
        forall|j: int| last_at(objs, x, y) < j < objs.len() ==> !(#[trigger] objs[j]).at(x, y),
    decreases objs.len(),
{
    if objs.len() > 0 && !objs.last().at(x, y) {
        let rest = objs.drop_last();
        lemma_last_drawn_shows(rest, x, y);
        assert forall|j: int| last_at(objs, x, y) < j < objs.len() implies !(#[trigger] objs[j]).at(x, y) by {
            if j < objs.len() - 1 {
                assert(objs[j] == rest[j]);
            }
        }
    }
}

/// Draws every object in list order, then sets each tile's background:
/// dark wall where the tile stops sight, dark ground elsewhere.
pub fn render(con: &mut Canvas, game: &Game, objects: &[Object])
    requires
        old(con).wf(),
        game.wf(),
    ensures
        final(con).wf(),
        objects@.len() > 0 ==> final(con).foreground() == objects@.last().color,
        objects@.len() == 0 ==> final(con).foreground() == old(con).foreground(),
        forall|x: int, y: int| in_bounds(x, y) ==> #[trigger] final(con).cell_at(x, y) == (Cell {
            bg: background_of(game, x, y),
            ..drawn_over(objects@, old(con).cell_at(x, y), x, y)
        }),
{
    let mut i: usize = 0;
    while i < objects.len()
        invariant
            i <= objects@.len(),
            con.wf(),
            i > 0 ==> con.foreground() == objects@[i - 1].color,
            i == 0 ==> con.foreground() == old(con).foreground(),
            forall|x: int, y: int| in_bounds(x, y) ==> #[trigger] con.cell_at(x, y)
                == drawn_over(objects@.take(i as int), old(con).cell_at(x, y), x, y),
        decreases objects@.len() - i,
    {
        let ghost before = *con;
        objects[i].draw(con);
        proof {
            let s = objects@.take(i as int + 1);
            assert(s.drop_last() =~= objects@.take(i as int));
            assert forall|x: int, y: int| in_bounds(x, y) implies #[trigger] con.cell_at(x, y)
                == drawn_over(s, old(con).cell_at(x, y), x, y) by {
                let t = objects@.take(i as int);
                assert(before.cell_at(x, y) == drawn_over(t, old(con).cell_at(x, y), x, y));
                assert(s.last() == objects@[i as int]);
                lemma_last_drawn_shows(t, x, y);
                let k = last_at(t, x, y);
                if k >= 0 {
                    assert(s[k] == t[k]);
                }
            }
        }
        i = i + 1;
    }
    assert(objects@.take(objects@.len() as int) =~= objects@);
    let ghost drawn = *con;
    let mut y: i32 = 0;
    while y < MAP_HEIGHT
        invariant
            0 <= y <= MAP_HEIGHT,
            con.wf(),
            game.wf(),
            con.foreground() == drawn.foreground(),
            forall|i: int, j: int| in_bounds(i, j) ==> #[trigger] con.cell_at(i, j) == (
                if j < y {
                    Cell { bg: background_of(game, i, j), ..drawn.cell_at(i, j) }
                } else {
                    drawn.cell_at(i, j)
                }),
        decreases MAP_HEIGHT - y,
    {
        let mut x: i32 = 0;
        while x < MAP_WIDTH
            invariant
                0 <= y < MAP_HEIGHT,
                0 <= x <= MAP_WIDTH,
                con.wf(),
                game.wf(),
                con.foreground() == drawn.foreground(),
                forall|i: int, j: int| in_bounds(i, j) ==> #[trigger] con.cell_at(i, j) == (
                    if j < y || (j == y && i < x) {
                        Cell { bg: background_of(game, i, j), ..drawn.cell_at(i, j) }
                    } else {
                        drawn.cell_at(i, j)
                    }),
            decreases MAP_WIDTH - x,
        {
            if game.is_opaque(x, y) {
                con.set_char_background(x, y, color_dark_wall());
            } else {
                con.set_char_background(x, y, color_dark_ground());
            }
            x = x + 1;
        }
        y = y + 1;
    }
}

} // verus!
