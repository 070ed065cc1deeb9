use snake::config::{MAP_CENTRE_X, MAP_CENTRE_Y};
use snake::direction::Direction;
use snake::object::{Colour, Object, Point};
use snake::snake::{
    Snake, CORNER_DOWN_LEFT, CORNER_UP_LEFT, HORIZONTAL_GLYPH, VERTICAL_GLYPH,
};

fn positions(s: &Snake) -> Vec<(i32, i32)> {
    s.segments().iter().map(|o| (o.position.x, o.position.y)).collect()
}

#[test]
fn default_snake_is_five_long_heading_east() {
    let s = Snake::default();
    assert_eq!(s.len(), 5);
    assert!(s.is_alive());
    assert_eq!(s.direction(), Direction::East);
    let c = (MAP_CENTRE_X, MAP_CENTRE_Y);
    assert_eq!(positions(&s), vec![(c.0 + 1, c.1), c, c, c, c]);
    for seg in s.segments() {
        assert_eq!(seg.glyph, HORIZONTAL_GLYPH);
        assert_eq!(seg.colour, Colour::Snake);
    }
}

#[test]
fn reversing_into_the_neck_is_refused() {
    let mut s = Snake::default();
    s.set_direction(Direction::West);
    assert_eq!(s.direction(), Direction::East);
    s.set_direction(Direction::North);
    assert_eq!(s.direction(), Direction::North);
    let head = s.segment(0).position;
    let neck = s.segment(1).position;
    assert_ne!(head.offset(s.direction()), neck);
}

#[test]
fn update_moves_head_and_keeps_length() {
    let mut s = Snake::default();
    s.update();
    assert_eq!(s.len(), 5);
    assert_eq!(
        positions(&s),
        vec![(14, 12), (13, 12), (12, 12), (12, 12), (12, 12)]
    );
}

#[test]
fn grow_after_update_adds_one_segment_once() {
    let mut s = Snake::default();
    s.grow();
    assert_eq!(s.len(), 5);
    s.update();
    s.grow();
    assert_eq!(s.len(), 6);
    s.grow();
    assert_eq!(s.len(), 6);
    s.update();
    assert_eq!(s.len(), 6);
}

#[test]
fn turning_paints_a_corner_on_the_neck() {
    let mut s = Snake::default();
    s.update();
    s.set_direction(Direction::South);
    s.update();
    assert_eq!(s.segment(0).glyph, VERTICAL_GLYPH);
    assert_eq!(s.segment(0).position, Point::new(14, 13));
    assert_eq!(s.segment(1).glyph, CORNER_DOWN_LEFT);
    s.set_direction(Direction::West);
    s.update();
    assert_eq!(s.segment(0).position, Point::new(13, 13));
    assert_eq!(s.segment(0).glyph, HORIZONTAL_GLYPH);
    assert_eq!(s.segment(1).glyph, CORNER_UP_LEFT);
}

#[test]
fn corner_at_the_tail_is_straightened() {
    let mut s = Snake::default();
    s.update();
    s.update();
    s.update();
    s.set_direction(Direction::South);
    s.update();
    assert_eq!(s.segment(1).glyph, CORNER_DOWN_LEFT);
    s.update();
    s.update();
    // the corner is next to the tail
    assert_eq!(s.segment(4).position, Point::new(15, 12));
    assert_eq!(s.segment(3).glyph, CORNER_DOWN_LEFT);
    s.update();
    let tail = s.segment(4);
    assert_eq!(tail.position, Point::new(16, 12));
    assert_eq!(tail.glyph, VERTICAL_GLYPH);
}

#[test]
fn self_collision_kills_and_dead_snake_shrinks_from_the_head() {
    let mut s = Snake::default();
    for _ in 0..4 {
        s.update();
    }
    // body now runs straight from (17,12) back to (13,12); grow it to six
    s.grow();
    s.set_direction(Direction::South);
    s.update();
    s.set_direction(Direction::West);
    s.update();
    s.set_direction(Direction::North);
    s.update();
    // the head stands on (16,12), still part of the body
    assert!(s.is_alive());
    assert_eq!(s.segment(0).position, Point::new(16, 12));
    let before = positions(&s);
    s.update();
    assert!(!s.is_alive());
    assert_eq!(positions(&s), before[1..].to_vec());
    for seg in s.segments() {
        assert_eq!(seg.colour, Colour::Dead);
    }
    s.update();
    assert!(!s.is_alive());
    assert_eq!(positions(&s), before[2..].to_vec());
}

#[test]
fn dead_snake_empties_and_stays_dead() {
    let mut s = Snake::default();
    let mut steps = 0;
    while s.is_alive() && steps < 100 {
        s.update();
        steps += 1;
    }
    assert!(!s.is_alive());
    while s.len() > 0 {
        s.update();
    }
    s.update();
    assert_eq!(s.len(), 0);
    assert!(!s.is_alive());
}

#[test]
fn occupies_reports_segments() {
    let s = Snake::default();
    assert!(s.occupies(Point::new(13, 12)));
    assert!(s.occupies(Point::new(12, 12)));
    assert!(!s.occupies(Point::new(11, 12)));
}

#[test]
fn object_new_keeps_fields() {
    let o = Object::new(Point::new(3, 4), '*', Colour::Fruit);
    assert_eq!(o.position, Point::new(3, 4));
    assert_eq!(o.glyph, '*');
    assert_eq!(o.colour, Colour::Fruit);
    assert!(o.position.is_in_bounds());
    assert!(!Point::new(25, 0).is_in_bounds());
    assert!(!Point::new(0, -1).is_in_bounds());
}
