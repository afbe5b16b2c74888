use snake::fruit::{Fruit, BLIT_2BPP, FRUIT_COLORS};
use snake::game::{update, Game, BUTTON_DOWN, BUTTON_LEFT, BUTTON_UP};
use snake::placement::get_random_location;
use snake::geometry::{get_max_points, Point, CAPACITY};
use snake::snake::{Snake, BODY_COLORS, HEAD_COLORS};

fn p(x: i8, y: i8) -> Point {
    Point::new(x, y)
}

fn run_frames(g: &mut Game, n: u32, input: u8) -> bool {
    let mut over = false;
    for _ in 0..n {
        over = update(g, input);
    }
    over
}

#[test]
fn new_snake_has_three_segments() {
    let s = Snake::new();
    assert_eq!(s.segments(), vec![p(0, 0), p(1, 0), p(2, 0)]);
    assert_eq!(s.len(), 3);
    assert_eq!(s.direction(), p(1, 0));
    assert_eq!(s.segment(0), p(0, 0));
}

#[test]
fn move_wraps_head_to_last_column() {
    let mut s = Snake::new();
    s.update(false);
    assert_eq!(s.segments(), vec![p(19, 0), p(0, 0), p(1, 0)]);
}

#[test]
fn first_movement_tick_moves_snake_once() {
    let mut g = Game::new();
    assert!(!run_frames(&mut g, 14, 0));
    assert_eq!(g.snake().segments(), vec![p(0, 0), p(1, 0), p(2, 0)]);
    assert!(!update(&mut g, 0));
    assert_eq!(g.frame_count(), 15);
    assert_eq!(g.snake().segments(), vec![p(19, 0), p(0, 0), p(1, 0)]);
}

#[test]
fn growing_move_adds_one_segment() {
    let mut s = Snake::new();
    s.update(true);
    assert_eq!(s.len(), 4);
    assert_eq!(s.segments(), vec![p(19, 0), p(0, 0), p(1, 0), p(2, 0)]);
    s.update(false);
    assert_eq!(s.len(), 4);
    assert_eq!(s.segments(), vec![p(18, 0), p(19, 0), p(0, 0), p(1, 0)]);
}

#[test]
fn growing_at_capacity_keeps_length() {
    let cells: Vec<Point> = (0..CAPACITY).map(|k| p((k % 20) as i8, (k / 20) as i8)).collect();
    let mut s = Snake::from_segments(&cells, p(1, 0)).unwrap();
    s.update(true);
    assert_eq!(s.len(), CAPACITY);
    assert_eq!(s.segment(0), p(19, 0));
    assert_eq!(s.segment(CAPACITY - 1), p(18, 19));
}

#[test]
fn head_wraps_on_every_edge() {
    let mut s = Snake::from_segments(&vec![p(19, 5)], p(-1, 0)).unwrap();
    s.update(false);
    assert_eq!(s.segment(0), p(0, 5));
    let mut s = Snake::from_segments(&vec![p(3, 0)], p(0, 1)).unwrap();
    s.update(false);
    assert_eq!(s.segment(0), p(3, 19));
    let mut s = Snake::from_segments(&vec![p(3, 19)], p(0, -1)).unwrap();
    s.update(false);
    assert_eq!(s.segment(0), p(3, 0));
    let mut s = Snake::from_segments(&vec![p(7, 7)], p(0, -1)).unwrap();
    s.update(false);
    assert_eq!(s.segment(0), p(7, 8));
}

#[test]
fn setters_never_reverse() {
    let mut s = Snake::new();
    s.left();
    assert_eq!(s.direction(), p(1, 0));
    s.right();
    assert_eq!(s.direction(), p(1, 0));
    s.up();
    assert_eq!(s.direction(), p(0, 1));
    s.down();
    assert_eq!(s.direction(), p(0, 1));
    s.right();
    assert_eq!(s.direction(), p(-1, 0));
    s.left();
    assert_eq!(s.direction(), p(-1, 0));
    s.down();
    assert_eq!(s.direction(), p(0, -1));
}

#[test]
fn first_fruit_is_placed_from_frame_zero() {
    let mut g = Game::new();
    assert_eq!(g.fruit().location(), p(-1, -1));
    g.place_random_fruit();
    assert_eq!(g.fruit().location(), p(5, 18));
    assert!(!g.snake().segments().contains(&g.fruit().location()));
}

#[test]
fn fruit_takes_the_only_free_cell() {
    let cells: Vec<Point> =
        (0..CAPACITY).filter(|k| *k != 137).map(|k| p((k % 20) as i8, (k / 20) as i8)).collect();
    let s = Snake::from_segments(&cells, p(1, 0)).unwrap();
    let mut g = Game::with_snake(s);
    g.place_random_fruit();
    assert_eq!(g.fruit().location(), p(17, 6));
}

#[test]
fn full_board_leaves_no_fruit() {
    let cells: Vec<Point> = (0..CAPACITY).map(|k| p((k % 20) as i8, (k / 20) as i8)).collect();
    let s = Snake::from_segments(&cells, p(1, 0)).unwrap();
    let mut g = Game::with_snake(s);
    g.place_random_fruit();
    assert_eq!(g.fruit().location(), p(-1, -1));
}

#[test]
fn random_location_uses_squared_frame() {
    let v = vec![p(1, 1), p(2, 2), p(3, 3)];
    assert_eq!(get_random_location(2, v.clone()), p(3, 3));
    assert_eq!(get_random_location(0, v.clone()), p(2, 2));
    let big = 100_000u32;
    let expected = ((big as u64 * big as u64 + 32415412) % 3) as usize;
    assert_eq!(get_random_location(big, v.clone()), v[expected]);
}

#[test]
fn eating_fruit_grows_and_scores() {
    let s = Snake::from_segments(&vec![p(14, 12)], p(1, 0)).unwrap();
    let mut g = Game::with_snake(s);
    g.place_random_fruit();
    assert_eq!(g.fruit().location(), p(13, 12));
    assert!(!run_frames(&mut g, 15, 0));
    assert_eq!(g.score(), 0);
    assert_eq!(g.snake().segments(), vec![p(13, 12)]);
    assert!(g.check_fruit_collision());
    assert!(!run_frames(&mut g, 15, 0));
    assert_eq!(g.score(), 1);
    assert_eq!(g.snake().segments(), vec![p(12, 12), p(13, 12)]);
    assert_eq!(g.fruit().location(), p(8, 0));
}

#[test]
fn identical_inputs_give_identical_runs() {
    let inputs: Vec<u8> = (0..200u32).map(|k| [0u8, BUTTON_UP, 0, BUTTON_LEFT, BUTTON_DOWN][(k % 5) as usize]).collect();
    let mut a = Game::new();
    let mut b = Game::new();
    a.place_random_fruit();
    b.place_random_fruit();
    for input in inputs {
        assert_eq!(update(&mut a, input), update(&mut b, input));
        assert_eq!(a.snake().segments(), b.snake().segments());
        assert_eq!(a.snake().direction(), b.snake().direction());
        assert_eq!(a.fruit().location(), b.fruit().location());
        assert_eq!(a.score(), b.score());
        assert_eq!(a.frame_count(), b.frame_count());
        assert_eq!(a.processing_input(), b.processing_input());
    }
}

#[test]
fn debouncer_takes_first_edge_until_move() {
    let mut g = Game::new();
    update(&mut g, BUTTON_UP);
    assert_eq!(g.snake().direction(), p(0, 1));
    assert!(g.processing_input());
    update(&mut g, BUTTON_LEFT);
    assert_eq!(g.snake().direction(), p(0, 1));
    assert!(g.processing_input());
    run_frames(&mut g, 12, 0);
    assert!(g.processing_input());
    update(&mut g, 0);
    assert_eq!(g.frame_count(), 15);
    assert!(!g.processing_input());
    update(&mut g, BUTTON_LEFT);
    assert_eq!(g.snake().direction(), p(1, 0));
}

#[test]
fn held_button_is_not_a_new_edge() {
    let mut g = Game::new();
    run_frames(&mut g, 15, BUTTON_UP);
    assert!(!g.processing_input());
    update(&mut g, BUTTON_UP | BUTTON_DOWN);
    assert_eq!(g.snake().direction(), p(0, 1));
    assert!(g.processing_input());
}

#[test]
fn other_buttons_leave_gate_open() {
    let mut g = Game::new();
    update(&mut g, 1);
    assert!(!g.processing_input());
    assert_eq!(g.snake().direction(), p(1, 0));
}

#[test]
fn self_overlap_is_game_over() {
    let body = vec![p(1, 1), p(1, 2), p(2, 2), p(2, 1), p(3, 1)];
    let s = Snake::from_segments(&body, p(-1, 0)).unwrap();
    let mut g = Game::with_snake(s);
    assert!(!g.check_snake_collision());
    assert!(!run_frames(&mut g, 15, 0));
    assert_eq!(g.snake().segment(0), p(2, 1));
    assert!(g.check_snake_collision());
    assert!(update(&mut g, 0));
    assert_eq!(g.frame_count(), 15);
    assert!(update(&mut g, BUTTON_UP));
    assert_eq!(g.snake().direction(), p(-1, 0));
}

#[test]
fn fruit_collision_compares_head() {
    let s = Snake::from_segments(&vec![p(14, 12)], p(1, 0)).unwrap();
    let mut g = Game::with_snake(s);
    assert!(!g.check_fruit_collision());
    let s = Snake::from_segments(&vec![p(13, 12)], p(1, 0)).unwrap();
    let mut g = Game::with_snake(s);
    g.place_random_fruit();
    assert_ne!(g.fruit().location(), p(13, 12));
    let s = Snake::from_segments(&vec![p(5, 18)], p(1, 0)).unwrap();
    let mut h = Game::with_snake(s);
    h.place_random_fruit();
    assert!(!h.check_fruit_collision());
}

#[test]
fn invalid_segments_are_refused() {
    assert!(Snake::from_segments(&vec![], p(1, 0)).is_none());
    assert!(Snake::from_segments(&vec![p(20, 0)], p(1, 0)).is_none());
    assert!(Snake::from_segments(&vec![p(0, -1)], p(1, 0)).is_none());
    assert!(Snake::from_segments(&vec![p(0, 0)], p(1, 1)).is_none());
    assert!(Snake::from_segments(&vec![p(0, 0)], p(0, 0)).is_none());
    let too_many: Vec<Point> = (0..CAPACITY + 1).map(|_| p(0, 0)).collect();
    assert!(Snake::from_segments(&too_many, p(1, 0)).is_none());
}

#[test]
fn snake_draws_head_then_body() {
    let s = Snake::new();
    let r = s.draw();
    assert_eq!(r.len(), 3);
    assert_eq!((r[0].colors, r[0].x, r[0].y, r[0].width, r[0].height), (HEAD_COLORS, 0, 0, 8, 8));
    assert_eq!((r[1].colors, r[1].x, r[1].y), (BODY_COLORS, 8, 0));
    assert_eq!((r[2].colors, r[2].x, r[2].y), (BODY_COLORS, 16, 0));
}

#[test]
fn fruit_glyph_and_blit() {
    let g = Game::new();
    assert_eq!(g.fruit().sprite(), Fruit::new().sprite());
    let f = Fruit::new();
    assert_eq!(f.location(), p(-1, -1));
    assert_eq!(
        f.sprite(),
        [0x00, 0xa0, 0x02, 0x00, 0x0e, 0xf0, 0x36, 0x5c, 0xd6, 0x57, 0xd5, 0x57, 0x35, 0x5c, 0x0f, 0xf0]
    );
    let b = Fruit::at(p(5, 18)).draw();
    assert_eq!((b.colors, b.x, b.y, b.width, b.height, b.flags), (FRUIT_COLORS, 40, 144, 8, 8, BLIT_2BPP));
}

#[test]
fn points_and_capacity() {
    assert_eq!(get_max_points(), 400);
    assert!(p(3, 4).equals(p(3, 4)));
    assert!(!p(3, 4).equals(p(4, 3)));
}
