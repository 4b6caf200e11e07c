use snake::{Direction, Key};

const ALL: [Direction; 4] = [Direction::Right, Direction::Left, Direction::Up, Direction::Down];

fn opposite(d: Direction) -> Direction {
    match d {
        Direction::Right => Direction::Left,
        Direction::Left => Direction::Right,
        Direction::Up => Direction::Down,
        Direction::Down => Direction::Up,
    }
}

#[test]
fn default_heading_is_right() {
    assert_eq!(Direction::default(), Direction::Right);
}

#[test]
fn change_direction_is_unconditional() {
    let mut d = Direction::Right;
    d.change_direction(Direction::Left);
    assert_eq!(d, Direction::Left);
}

#[test]
fn reversal_is_refused_and_other_turns_taken() {
    for from in ALL {
        for to in ALL {
            let mut d = from;
            d.change_direction_no_reverse(to);
            if to == opposite(from) {
                assert_eq!(d, from);
            } else {
                assert_eq!(d, to);
            }
        }
    }
}

#[test]
fn arrow_keys_turn_without_reversing() {
    let mut d = Direction::Right;
    assert!(d.change_direction_no_reverse_arrow(Key::Left));
    assert_eq!(d, Direction::Right);
    assert!(d.change_direction_no_reverse_arrow(Key::Up));
    assert_eq!(d, Direction::Up);
    assert!(d.change_direction_no_reverse_arrow(Key::Down));
    assert_eq!(d, Direction::Up);
    assert!(d.change_direction_no_reverse_arrow(Key::Left));
    assert_eq!(d, Direction::Left);
}

#[test]
fn other_keys_are_not_arrows() {
    let mut d = Direction::Down;
    assert!(!d.change_direction_no_reverse_arrow(Key::Char('x')));
    assert!(!d.change_direction_no_reverse_arrow(Key::Other));
    assert_eq!(d, Direction::Down);
}

#[test]
fn deltas_are_the_four_unit_vectors() {
    assert_eq!(Direction::Right.to_delta_vec(), (1, 0));
    assert_eq!(Direction::Left.to_delta_vec(), (-1, 0));
    assert_eq!(Direction::Up.to_delta_vec(), (0, -1));
    assert_eq!(Direction::Down.to_delta_vec(), (0, 1));
    let deltas: Vec<(i32, i32)> = ALL.iter().map(|d| d.to_delta_vec()).collect();
    for (i, a) in deltas.iter().enumerate() {
        for (j, b) in deltas.iter().enumerate() {
            assert_eq!(i == j, a == b);
        }
    }
}
