use snake::direction::{Direction, Key};

#[test]
fn movement_keys_map_to_headings() {
    assert_eq!(Direction::from_key(Key::W), Some(Direction::North));
    assert_eq!(Direction::from_key(Key::Up), Some(Direction::North));
    assert_eq!(Direction::from_key(Key::A), Some(Direction::West));
    assert_eq!(Direction::from_key(Key::Left), Some(Direction::West));
    assert_eq!(Direction::from_key(Key::S), Some(Direction::South));
    assert_eq!(Direction::from_key(Key::Down), Some(Direction::South));
    assert_eq!(Direction::from_key(Key::D), Some(Direction::East));
    assert_eq!(Direction::from_key(Key::Right), Some(Direction::East));
}

#[test]
fn other_keys_give_no_heading() {
    assert_eq!(Direction::from_key(Key::Escape), None);
    assert_eq!(Direction::from_key(Key::P), None);
    assert_eq!(Direction::from_key(Key::R), None);
    assert_eq!(Direction::from_key(Key::Other), None);
}

#[test]
fn headings_give_unit_vectors() {
    assert_eq!(Direction::North.to_vector(), (0, -1));
    assert_eq!(Direction::East.to_vector(), (1, 0));
    assert_eq!(Direction::South.to_vector(), (0, 1));
    assert_eq!(Direction::West.to_vector(), (-1, 0));
}

