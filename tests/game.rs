use roguelike::{
    black, color_dark_ground, color_dark_wall, handle_keys, make_map, render, white, yellow, Canvas,
    Cell, Game, Key, KeyAction, KeyCode, LoopState, Object, Rgb, Tile, World, MAP_HEIGHT,
    MAP_WIDTH, START_X, START_Y,
};

fn pressed(code: KeyCode) -> Key {
    Key { code, pressed: true, alt: false }
}

#[test]
fn tile_variants() {
    let e = Tile::empty();
    assert!(!e.blocked && !e.block_sight);
    let w = Tile::wall();
    assert!(w.blocked && w.block_sight);
}

#[test]
fn colors_have_their_values() {
    assert_eq!(color_dark_wall(), Rgb { r: 0, g: 0, b: 100 });
    assert_eq!(color_dark_ground(), Rgb { r: 50, g: 50, b: 150 });
    assert_eq!(white(), Rgb::new(255, 255, 255));
    assert_eq!(yellow(), Rgb::new(255, 255, 0));
    assert_eq!(black(), Rgb::new(0, 0, 0));
}

#[test]
fn map_has_fixed_size_and_two_walls() {
    let map = make_map();
    assert_eq!(map.len(), MAP_WIDTH as usize);
    let mut walls = 0;
    for (x, column) in map.iter().enumerate() {
        assert_eq!(column.len(), MAP_HEIGHT as usize);
        for (y, tile) in column.iter().enumerate() {
            if tile.blocked {
                walls += 1;
                assert!((x, y) == (30, 22) || (x, y) == (50, 24));
                assert_eq!(*tile, Tile::wall());
            } else {
                assert_eq!(*tile, Tile::empty());
            }
        }
    }
    assert_eq!(walls, 2);
}

#[test]
fn map_queries_are_deterministic() {
    let a = Game::new();
    let b = Game::new();
    for x in -2..MAP_WIDTH + 2 {
        for y in -2..MAP_HEIGHT + 2 {
            assert_eq!(a.is_blocked(x, y), b.is_blocked(x, y));
            assert_eq!(a.is_opaque(x, y), b.is_opaque(x, y));
            assert_eq!(a.is_blocked(x, y), a.is_blocked(x, y));
        }
    }
}

#[test]
fn blocked_and_opaque_cells() {
    let game = Game::new();
    assert!(game.is_blocked(30, 22));
    assert!(game.is_opaque(50, 24));
    assert!(!game.is_blocked(40, 25));
    assert!(!game.is_opaque(0, 0));
    assert!(game.is_blocked(-1, 0));
    assert!(game.is_blocked(MAP_WIDTH, 0));
    assert!(game.is_blocked(0, MAP_HEIGHT));
    assert!(game.is_opaque(0, -1));
    assert!(game.is_blocked(i32::MIN, i32::MAX));
}

#[test]
fn move_into_free_cell_changes_position_by_delta() {
    let game = Game::new();
    let mut o = Object::new(10, 10, 'g', yellow());
    o.move_by(1, 0, &game);
    assert_eq!((o.x, o.y), (11, 10));
    o.move_by(0, -1, &game);
    assert_eq!((o.x, o.y), (11, 9));
    o.move_by(-3, 4, &game);
    assert_eq!((o.x, o.y), (8, 13));
    assert_eq!(o.char, 'g');
    assert_eq!(o.color, yellow());
}

#[test]
fn move_into_wall_is_refused() {
    let game = Game::new();
    let mut o = Object::new(29, 22, '@', white());
    o.move_by(1, 0, &game);
    assert_eq!((o.x, o.y), (29, 22));
    let mut p = Object::new(50, 25, '@', white());
    p.move_by(0, -1, &game);
    assert_eq!((p.x, p.y), (50, 25));
}

#[test]
fn move_off_the_map_is_refused() {
    let game = Game::new();
    let mut o = Object::new(0, 0, '@', white());
    o.move_by(-1, 0, &game);
    o.move_by(0, -1, &game);
    assert_eq!((o.x, o.y), (0, 0));
    let mut p = Object::new(MAP_WIDTH - 1, MAP_HEIGHT - 1, '@', white());
    p.move_by(1, 0, &game);
    p.move_by(0, 1, &game);
    assert_eq!((p.x, p.y), (MAP_WIDTH - 1, MAP_HEIGHT - 1));
    let mut q = Object::new(i32::MAX, 5, '@', white());
    q.move_by(i32::MAX, 0, &game);
    assert_eq!((q.x, q.y), (i32::MAX, 5));
}

#[test]
fn right_right_left_moves_one_right() {
    let game = Game::new();
    let mut player = Object::new(40, 25, '@', white());
    assert_eq!(handle_keys(pressed(KeyCode::Right), &mut player, &game), KeyAction::Continue);
    handle_keys(pressed(KeyCode::Right), &mut player, &game);
    handle_keys(pressed(KeyCode::Left), &mut player, &game);
    assert_eq!((player.x, player.y), (41, 25));
}

#[test]
fn pressing_right_into_wall_stays() {
    let game = Game::new();
    let mut player = Object::new(29, 22, '@', white());
    handle_keys(pressed(KeyCode::Right), &mut player, &game);
    assert_eq!((player.x, player.y), (29, 22));
}

#[test]
fn arrow_keys_move_one_cell() {
    let game = Game::new();
    let mut player = Object::new(5, 5, '@', white());
    handle_keys(pressed(KeyCode::Up), &mut player, &game);
    assert_eq!((player.x, player.y), (5, 4));
    handle_keys(pressed(KeyCode::Down), &mut player, &game);
    handle_keys(pressed(KeyCode::Down), &mut player, &game);
    assert_eq!((player.x, player.y), (5, 6));
    handle_keys(pressed(KeyCode::Left), &mut player, &game);
    assert_eq!((player.x, player.y), (4, 6));
}

#[test]
fn released_and_other_keys_do_nothing() {
    let game = Game::new();
    let mut player = Object::new(5, 5, '@', white());
    let released = Key { code: KeyCode::Right, pressed: false, alt: false };
    assert_eq!(handle_keys(released, &mut player, &game), KeyAction::Continue);
    let esc_up = Key { code: KeyCode::Escape, pressed: false, alt: false };
    assert_eq!(handle_keys(esc_up, &mut player, &game), KeyAction::Continue);
    assert_eq!(handle_keys(pressed(KeyCode::Other), &mut player, &game), KeyAction::Continue);
    assert_eq!(handle_keys(pressed(KeyCode::Enter), &mut player, &game), KeyAction::Continue);
    assert_eq!((player.x, player.y), (5, 5));
}

#[test]
fn alt_enter_asks_for_one_fullscreen_toggle() {
    let game = Game::new();
    let mut player = Object::new(5, 5, '@', white());
    let alt_enter = Key { code: KeyCode::Enter, pressed: true, alt: true };
    assert_eq!(handle_keys(alt_enter, &mut player, &game), KeyAction::ToggleFullscreen);
    assert_eq!((player.x, player.y), (5, 5));
    let mut world = World::start();
    let mut fullscreen = false;
    for _ in 0..3 {
        if world.handle_key(alt_enter) == KeyAction::ToggleFullscreen {
            fullscreen = !fullscreen;
        }
    }
    assert!(fullscreen);
    assert_eq!((world.objects[0].x, world.objects[0].y), (START_X, START_Y));
    assert_eq!(world.state, LoopState::Running);
}

#[test]
fn escape_exits_and_stops_rendering() {
    let mut world = World::start();
    world.handle_key(pressed(KeyCode::Right));
    assert!(world.is_running());
    assert_eq!(world.handle_key(pressed(KeyCode::Escape)), KeyAction::Exit);
    assert_eq!(world.state, LoopState::Exiting);
    assert!(!world.is_running());
    let mut con = Canvas::new();
    assert!(!world.render_frame(&mut con));
    assert_eq!(con.cell(0, 0), Some(Cell { glyph: ' ', fg: white(), bg: black() }));
    assert_eq!(world.handle_key(pressed(KeyCode::Left)), KeyAction::Exit);
    assert_eq!((world.objects[0].x, world.objects[0].y), (START_X + 1, START_Y));
}

#[test]
fn window_close_exits() {
    let mut world = World::start();
    world.window_closed();
    assert_eq!(world.state, LoopState::Exiting);
    let mut con = Canvas::new();
    assert!(!world.render_frame(&mut con));
}

#[test]
fn start_world_layout() {
    let world = World::start();
    assert_eq!(world.objects.len(), 2);
    assert_eq!(world.objects[0], Object::new(40, 25, '@', white()));
    assert_eq!(world.objects[1], Object::new(35, 25, '@', yellow()));
}

#[test]
fn last_object_in_list_shows_on_shared_cell() {
    let game = Game::new();
    let objects = [
        Object::new(3, 4, 'a', white()),
        Object::new(3, 4, 'b', yellow()),
        Object::new(7, 7, 'c', white()),
    ];
    let mut con = Canvas::new();
    render(&mut con, &game, &objects);
    let cell = con.cell(3, 4).unwrap();
    assert_eq!(cell.glyph, 'b');
    assert_eq!(cell.fg, yellow());
    assert_eq!(cell.bg, color_dark_ground());
    assert_eq!(con.cell(7, 7).unwrap().glyph, 'c');
    assert_eq!(con.cell(8, 8).unwrap().glyph, ' ');
}

#[test]
fn render_sets_backgrounds() {
    let game = Game::new();
    let mut con = Canvas::new();
    render(&mut con, &game, &[]);
    assert_eq!(con.cell(30, 22).unwrap().bg, color_dark_wall());
    assert_eq!(con.cell(50, 24).unwrap().bg, color_dark_wall());
    assert_eq!(con.cell(0, 0).unwrap().bg, color_dark_ground());
    assert_eq!(con.cell(MAP_WIDTH - 1, MAP_HEIGHT - 1).unwrap().bg, color_dark_ground());
}

#[test]
fn frame_is_cleared_then_drawn() {
    let mut world = World::start();
    let mut con = Canvas::new();
    con.put_char(1, 1, 'x');
    assert!(world.render_frame(&mut con));
    assert_eq!(con.cell(1, 1).unwrap().glyph, ' ');
    assert_eq!(con.cell(40, 25).unwrap(), Cell { glyph: '@', fg: white(), bg: color_dark_ground() });
    assert_eq!(con.cell(35, 25).unwrap().fg, yellow());
    world.handle_key(pressed(KeyCode::Down));
    assert!(world.render_frame(&mut con));
    assert_eq!(con.cell(40, 25).unwrap().glyph, ' ');
    assert_eq!(con.cell(40, 26).unwrap().glyph, '@');
}

#[test]
fn canvas_ignores_draws_off_the_surface() {
    let mut con = Canvas::new();
    con.put_char(-1, 0, 'x');
    con.put_char(MAP_WIDTH, 0, 'x');
    con.set_char_background(0, MAP_HEIGHT, yellow());
    assert_eq!(con.cell(-1, 0), None);
    assert_eq!(con.cell(0, MAP_HEIGHT), None);
    for x in 0..MAP_WIDTH {
        for y in 0..MAP_HEIGHT {
            assert_eq!(con.cell(x, y).unwrap(), Cell { glyph: ' ', fg: white(), bg: black() });
        }
    }
}

#[test]
fn canvas_put_char_keeps_background() {
    let mut con = Canvas::new();
    con.set_char_background(2, 3, yellow());
    con.set_default_foreground(Rgb::new(1, 2, 3));
    con.put_char(2, 3, 'z');
    assert_eq!(con.cell(2, 3).unwrap(), Cell { glyph: 'z', fg: Rgb::new(1, 2, 3), bg: yellow() });
    con.clear();
    assert_eq!(con.cell(2, 3).unwrap(), Cell { glyph: ' ', fg: white(), bg: black() });
}

#[test]
fn draw_writes_glyph_in_object_colour() {
    let mut con = Canvas::new();
    let o = Object::new(4, 4, 'k', yellow());
    o.draw(&mut con);
    assert_eq!(con.cell(4, 4).unwrap(), Cell { glyph: 'k', fg: yellow(), bg: black() });
}
