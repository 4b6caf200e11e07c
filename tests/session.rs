use std::collections::VecDeque;

use snake::{Apple, App, Direction, Key, Snake};

fn body(app: &App) -> Vec<(u16, u16)> {
    app.snake().body.iter().copied().collect()
}

#[test]
fn new_session_is_idle() {
    let app = App::new();
    assert_eq!(app.score(), 0);
    assert!(!app.is_running());
    assert!(app.snake().body.is_empty());
    assert_eq!(app.apple().position(), (0, 0));
}

#[test]
fn start_centres_the_snake_and_places_the_apple() {
    let mut app = App::new();
    app.start(40, 20);
    assert!(app.is_running());
    assert_eq!(body(&app), vec![(20, 10), (19, 10)]);
    let (x, y) = app.apple().position();
    assert!(x < 40 && y < 20);
}

#[test]
fn spawn_stays_inside_positive_bounds() {
    for _ in 0..1000 {
        let (x, y) = Apple::spawn((7, 3)).position();
        assert!(x < 7);
        assert!(y < 3);
    }
    assert_eq!(Apple::spawn((1, 1)).position(), (0, 0));
}

#[test]
fn apple_at_keeps_its_cell() {
    assert_eq!(Apple::at((3, 9)).position(), (3, 9));
    assert_eq!(Apple::default().position(), (0, 0));
}

#[test]
fn eating_scenario_grows_the_snake() {
    let mut app = App::from_parts(Snake::new(5, 5), Apple::at((6, 5)));
    let mut ticks = 0;
    while body(&app)[0] == (5, 5) {
        app.tick(30, 30);
        ticks += 1;
    }
    assert_eq!(ticks, 20);
    assert!(app.is_running());
    assert_eq!(body(&app), vec![(6, 5), (5, 5)]);
    assert!(app.snake().has_eaten);
    assert_eq!(app.score(), 1);
    let (ax, ay) = app.apple().position();
    assert!(ax < 30 && ay < 30);
    while body(&app)[0] == (6, 5) {
        app.tick(30, 30);
    }
    assert!(app.is_running());
    assert_eq!(body(&app).len(), 3);
    assert_eq!(body(&app)[0], (7, 5));
    assert_eq!(body(&app)[1..], [(6, 5), (5, 5)]);
}

#[test]
fn left_edge_ends_the_session() {
    let mut s = Snake::new(1, 4);
    s.body = VecDeque::from([(0, 4), (1, 4)]);
    s.dir = Direction::Left;
    let mut app = App::from_parts(s, Apple::at((9, 9)));
    for _ in 0..(20 - 1) {
        app.tick(10, 10);
        assert!(app.is_running());
    }
    app.tick(10, 10);
    assert!(!app.is_running());
    assert_eq!(body(&app), vec![(0, 4), (1, 4)]);
}

#[test]
fn right_edge_of_the_field_ends_the_session() {
    let mut app = App::from_parts(Snake::new(9, 4), Apple::at((0, 0)));
    for _ in 0..20 {
        app.tick(10, 10);
    }
    assert_eq!(body(&app)[0], (10, 4));
    assert!(!app.is_running());
}

#[test]
fn shrunken_field_ends_the_session() {
    let mut app = App::from_parts(Snake::new(5, 5), Apple::at((0, 0)));
    for _ in 0..20 {
        app.tick(10, 5);
    }
    assert!(!app.is_running());
}

#[test]
fn frozen_snake_never_moves_in_a_session() {
    let mut app = App::from_parts(Snake::new(5, 5), Apple::at((0, 0)));
    app.on_key_event(Key::Char('['));
    assert_eq!(app.snake().speed, 0);
    for _ in 0..70_000u32 {
        app.tick(10, 10);
        assert_eq!(body(&app), vec![(5, 5), (4, 5)]);
    }
    assert!(app.is_running());
    assert_eq!(app.snake().tick_counter, (70_000u32 % 65_536) as u16);
}

#[test]
fn keys_drive_the_session() {
    let mut app = App::from_parts(Snake::new(5, 5), Apple::at((0, 0)));
    app.on_key_event(Key::Char(']'));
    assert_eq!(app.snake().speed, 2);
    app.on_key_event(Key::Char('['));
    app.on_key_event(Key::Char('['));
    app.on_key_event(Key::Char('['));
    assert_eq!(app.snake().speed, 0);
    app.on_key_event(Key::Char('x'));
    app.on_key_event(Key::Other);
    assert!(!app.snake().changing_dir);
    assert!(app.is_running());
    app.on_key_event(Key::Left);
    assert_eq!(app.snake().dir, Direction::Right);
    assert!(app.snake().changing_dir);
    app.on_key_event(Key::Up);
    assert_eq!(app.snake().dir, Direction::Up);
    app.on_key_event(Key::Char('Q'));
    assert!(!app.is_running());
    let mut app = App::from_parts(Snake::new(5, 5), Apple::at((0, 0)));
    app.quit();
    assert!(!app.is_running());
    let mut app = App::from_parts(Snake::new(5, 5), Apple::at((0, 0)));
    app.on_key_event(Key::Char('q'));
    assert!(!app.is_running());
}

#[test]
fn score_saturates() {
    let mut app = App::new();
    for _ in 0..70_000u32 {
        app.inc_score();
    }
    assert_eq!(app.score(), u16::MAX);
}

#[test]
fn grid_draws_snake_and_apple() {
    let mut s = Snake::new(2, 1);
    s.body.push_back((0, 1));
    let app = App::from_parts(s, Apple::at((3, 0)));
    let g = app.grid(4, 3);
    let rows: Vec<String> = g.iter().map(|r| r.iter().collect()).collect();
    assert_eq!(rows, vec!["   $".to_string(), "##@ ".to_string(), "    ".to_string()]);
}

#[test]
fn grid_leaves_out_cells_off_the_field() {
    let app = App::from_parts(Snake::new(5, 1), Apple::at((9, 9)));
    let g = app.grid(5, 2);
    let rows: Vec<String> = g.iter().map(|r| r.iter().collect()).collect();
    assert_eq!(rows, vec!["     ".to_string(), "    #".to_string()]);
}

#[test]
fn grid_body_covers_head_and_apple() {
    let mut s = Snake::new(1, 0);
    s.body = VecDeque::from([(1, 0), (1, 0), (0, 0)]);
    let app = App::from_parts(s, Apple::at((0, 0)));
    let g = app.grid(2, 1);
    assert_eq!(g, vec![vec!['#', '#']]);
}

#[test]
fn no_meal_on_a_tick_that_leaves_the_field() {
    let mut s = Snake::new(9, 4);
    s.speed = 40;
    let mut app = App::from_parts(s, Apple::at((10, 4)));
    app.tick(10, 10);
    assert!(!app.is_running());
    assert_eq!(body(&app), vec![(10, 4), (9, 4)]);
    assert_eq!(app.score(), 0);
    assert!(!app.snake().has_eaten);
    assert_eq!(app.apple().position(), (10, 4));
}

#[test]
fn no_meal_on_a_tick_that_bites_the_body() {
    let mut s = Snake::new(1, 0);
    s.body = VecDeque::from([(5, 5), (6, 5), (6, 6), (5, 6), (4, 6)]);
    s.dir = Direction::Down;
    s.speed = 40;
    let mut app = App::from_parts(s, Apple::at((5, 6)));
    app.tick(10, 10);
    assert!(!app.is_running());
    assert_eq!(app.score(), 0);
    assert!(!app.snake().has_eaten);
    assert_eq!(app.apple().position(), (5, 6));
}
