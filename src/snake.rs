use vstd::prelude::*;

use std::collections::VecDeque;

use crate::config::{MAP_CENTRE_X, MAP_CENTRE_Y, STARTING_LENGTH};
use crate::direction::Direction;
use crate::object::{in_bounds, near_bounds, Colour, Object, Point};

verus! {

/// Glyph of a segment travelling east or west.
pub const HORIZONTAL_GLYPH: char = '═';

/// Glyph of a segment travelling north or south.
pub const VERTICAL_GLYPH: char = '║';

/// Corner opening to the east and south.
pub const CORNER_DOWN_RIGHT: char = '╔';

/// Corner opening to the west and south.
pub const CORNER_DOWN_LEFT: char = '╗';

/// Corner opening to the east and north.
pub const CORNER_UP_RIGHT: char = '╚';

/// Corner opening to the west and north.
pub const CORNER_UP_LEFT: char = '╝';

/// Whether `g` is one of the two straight glyphs.
pub open spec fn is_straight(g: char) -> bool {
    g == HORIZONTAL_GLYPH || g == VERTICAL_GLYPH
}

/// The straight glyph of a segment that travels in heading `d`.
pub open spec fn straight_glyph(d: Direction) -> char {
    if d.is_vertical() {
        VERTICAL_GLYPH
    } else {
        HORIZONTAL_GLYPH
    }
}

/// The corner glyph for the neck at `neck`, between the head at `head` and the
/// segment behind the neck at `after`; `None` where the path does not turn there.
pub open spec fn corner_glyph(head: Point, neck: Point, after: Point) -> Option<char> {
    if after.x != neck.x {
        if head.y > neck.y {
            Some(if after.x > neck.x { CORNER_DOWN_RIGHT } else { CORNER_DOWN_LEFT })
        } else if head.y < neck.y {
            Some(if after.x > neck.x { CORNER_UP_RIGHT } else { CORNER_UP_LEFT })
        } else {
            None
        }
    } else if after.y != neck.y {
        if head.x > neck.x {
            Some(if after.y > neck.y { CORNER_DOWN_RIGHT } else { CORNER_UP_RIGHT })
        } else if head.x < neck.x {
            Some(if after.y > neck.y { CORNER_DOWN_LEFT } else { CORNER_UP_LEFT })
        } else {
            None
        }
    } else {
        None
    }
}

/// `o` with its glyph replaced.
pub open spec fn with_glyph(o: Object, g: char) -> Object {
    Object { position: o.position, glyph: g, colour: o.colour }
}

/// `body` with every segment painted in the dead colour.
pub open spec fn recoloured(body: Seq<Object>) -> Seq<Object> {
    body.map_values(|o: Object| Object { position: o.position, glyph: o.glyph, colour: Colour::Dead })
}

/// Whether some segment other than the head stands on `p`.
pub open spec fn occupied_behind_head(body: Seq<Object>, p: Point) -> bool {
    exists|i: int| 1 <= i < body.len() && #[trigger] body[i].position == p
}

/// The abstract state of a snake.
pub struct SnakeState {
    /// Segments from head (index 0) to tail.
    pub body: Seq<Object>,
    /// Heading applied at the next move.
    pub direction: Direction,
    /// The tail removed by the latest move and not yet given back by growing.
    pub popped_tail: Option<Object>,
    /// Whether the heading changed since the last corner repaint.
    pub requires_corner_update: bool,
    pub alive: bool,
}

impl SnakeState {
    /// Every segment, and a held tail, stays on or next to the field; a living
    /// snake has a neck, and its next head position is not on that neck.
    pub open spec fn wf(self) -> bool {
        &&& forall|i: int| 0 <= i < self.body.len() ==> near_bounds(#[trigger] self.body[i].position)
        &&& self.popped_tail matches Some(t) ==> near_bounds(t.position)
        &&& self.alive ==> self.body.len() >= 2 && self.heading_clear()
    }

    /// The head's next position is not the neck's position.
    pub open spec fn heading_clear(self) -> bool {
        self.body.len() >= 2 ==> self.body[0].position.shifted(self.direction) != self.body[1].position
    }

    /// The head is off the field or on another segment.
    pub open spec fn head_collides(self) -> bool {
        !in_bounds(self.body[0].position) || occupied_behind_head(self.body, self.body[0].position)
    }

    /// One step forward: a new head in front, the tail removed and held.
    pub open spec fn moved(self) -> SnakeState {
        let head = self.body[0];
        let new_head = Object {
            position: head.position.shifted(self.direction),
            glyph: straight_glyph(self.direction),
            colour: head.colour,
        };
        SnakeState {
            body: seq![new_head] + self.body.drop_last(),
            popped_tail: Some(self.body.last()),
            ..self
        }
    }

    /// The body after tail straightening: a corner glyph at the tail takes the
    /// straight glyph of the segment before it.
    pub open spec fn tail_straightened(self) -> Seq<Object> {
        let n = self.body.len();
        let g = self.body[n - 2].glyph;
        if is_straight(g) && !is_straight(self.body[n - 1].glyph) {
            self.body.update(n - 1, with_glyph(self.body[n - 1], g))
        } else {
            self.body
        }
    }

    /// The corner-glyph pass, on a body longer than two segments.
    pub open spec fn repainted(self) -> SnakeState {
        if self.body.len() > 2 {
            let body = self.tail_straightened();
            if self.requires_corner_update {
                let body = match corner_glyph(body[0].position, body[1].position, body[2].position) {
                    Some(g) => body.update(1, with_glyph(body[1], g)),
                    None => body,
                };
                SnakeState { body, requires_corner_update: false, ..self }
            } else {
                SnakeState { body, ..self }
            }
        } else {
            self
        }
    }

    /// The state after one update: a living snake whose head collides dies,
    /// turns grey and loses its head; a living one that does not collide moves
    /// and repaints its corners; a dead one loses its front segment.
    pub open spec fn stepped(self) -> SnakeState {
        if self.alive && !self.head_collides() {
            self.moved().repainted()
        } else {
            let body = if self.alive { recoloured(self.body) } else { self.body };
            SnakeState {
                body: if body.len() > 0 { body.drop_first() } else { body },
                alive: false,
                ..self
            }
        }
    }

    /// The state after growing: a held tail goes back on the end.
    pub open spec fn grown(self) -> SnakeState {
        match self.popped_tail {
            Some(t) => SnakeState { body: self.body.push(t), popped_tail: None, ..self },
            None => self,
        }
    }

    /// The state after asking for heading `d`.
    pub open spec fn turned(self, d: Direction) -> SnakeState {
        if self.body[0].position.shifted(d) == self.body[1].position {
            self
        } else {
            SnakeState { direction: d, requires_corner_update: true, ..self }
        }
    }
}

/// The snake: its body as a double-ended queue, head at the front.
pub struct Snake {
    body: VecDeque<Object>,
    direction: Direction,
    popped_tail: Option<Object>,
    requires_corner_update: bool,
    alive: bool,
}

impl View for Snake {
    type V = SnakeState;

    closed spec fn view(&self) -> SnakeState {
        SnakeState {
            body: self.body@,
            direction: self.direction,
            popped_tail: self.popped_tail,
            requires_corner_update: self.requires_corner_update,
            alive: self.alive,
        }
    }
}

fn is_straight_glyph(g: char) -> (r: bool)
    ensures
        r == is_straight(g),
{
    g == HORIZONTAL_GLYPH || g == VERTICAL_GLYPH
}

fn corner_glyph_at(head: Point, neck: Point, after: Point) -> (r: Option<char>)
    ensures
        r == corner_glyph(head, neck, after),
{
    if after.x != neck.x {
        if head.y > neck.y {
            Some(if after.x > neck.x { CORNER_DOWN_RIGHT } else { CORNER_DOWN_LEFT })
        } else if head.y < neck.y {
            Some(if after.x > neck.x { CORNER_UP_RIGHT } else { CORNER_UP_LEFT })
        } else {
            None
        }
    } else if after.y != neck.y {
        if head.x > neck.x {
            Some(if after.y > neck.y { CORNER_DOWN_RIGHT } else { CORNER_UP_RIGHT })
        } else if head.x < neck.x {
            Some(if after.y > neck.y { CORNER_DOWN_LEFT } else { CORNER_UP_LEFT })
        } else {
            None
        }
    } else {
        None
    }
}

impl Snake {
    /// Number of segments.
    pub fn len(&self) -> (r: usize)
        ensures
            r == self@.body.len(),
    {
        self.body.len()
    }

    pub fn is_alive(&self) -> (r: bool)
        ensures
            r == self@.alive,
    {
        self.alive
    }

    pub fn direction(&self) -> (r: Direction)
        ensures
            r == self@.direction,
    {
        self.direction
    }

    /// The segment at index `i`, counting from the head.
    pub fn segment(&self, i: usize) -> (r: Object)
        requires
            i < self@.body.len(),
        ensures
            r == self@.body[i as int],
    {
        self.body[i]
    }

    /// All segments, head first.
    pub fn segments(&self) -> (r: Vec<Object>)
        ensures
            r@ == self@.body,
    {
        let mut out: Vec<Object> = Vec::new();
        let n = self.body.len();
        for i in 0..n
            invariant
                n == self@.body.len(),
                out@ == self@.body.subrange(0, i as int),
        {
            out.push(self.body[i]);
            assert(out@ =~= self@.body.subrange(0, i + 1));
        }
        assert(out@ =~= self@.body);
        out
    }

    /// Whether some segment stands on `p`.
    pub open spec fn occupies_spec(&self, p: Point) -> bool {
        exists|i: int| 0 <= i < self@.body.len() && #[trigger] self@.body[i].position == p
    }

    /// Whether some segment stands on `p`.
    pub fn occupies(&self, p: Point) -> (r: bool)
        ensures
            r == self.occupies_spec(p),
    {
        let n = self.body.len();
        for i in 0..n
            invariant
                n == self@.body.len(),
                forall|j: int| 0 <= j < i ==> self@.body[j].position != p,
        {
            if self.body[i].position == p {
                return true;
            }
        }
        false
    }

    /// Asks for heading `direction`; refused where the head would step onto
    /// the neck.
    pub fn set_direction(&mut self, direction: Direction)
        requires
            old(self)@.wf(),
            old(self)@.body.len() >= 2,
        ensures
            final(self)@ == old(self)@.turned(direction),
            final(self)@.wf(),
            final(self)@.alive ==> final(self)@.heading_clear(),
            final(self)@.direction != old(self)@.direction ==> final(self)@.heading_clear(),
    {
        let head = self.body[0];
        assert(near_bounds(self@.body[0].position));
        if head.position.offset(direction) != self.body[1].position {
            self.direction = direction;
            self.requires_corner_update = true;
        }
    }

    /// Puts the tail removed by the latest move back on the end, once.
    pub fn grow(&mut self)
        requires
            old(self)@.wf(),
        ensures
            final(self)@ == old(self)@.grown(),
            final(self)@.wf(),
    {
        if let Some(tail) = self.popped_tail.take() {
            self.body.push_back(tail);
        }
    }

    /// Straightens a stale corner at the tail and, after a turn, gives the
    /// neck its corner glyph.
    pub fn update_corner_glyphs(&mut self)
        ensures
            final(self)@ == old(self)@.repainted(),
    {
        let n = self.body.len();
        if n > 2 {
            let new_glyph = self.body[n - 2].glyph;
            let tail = self.body[n - 1];
            if is_straight_glyph(new_glyph) && !is_straight_glyph(tail.glyph) {
                let _ = self.body.pop_back();
                self.body.push_back(Object::new(tail.position, new_glyph, tail.colour));
                assert(self@.body =~= old(self)@.tail_straightened());
            } else {
                assert(self@.body =~= old(self)@.tail_straightened());
            }
            if self.requires_corner_update {
                let head = self.body[0];
                let neck = self.body[1];
                let after = self.body[2];
                match corner_glyph_at(head.position, neck.position, after.position) {
                    Some(g) => {
                        let ghost straightened = self@.body;
                        let _ = self.body.pop_front();
                        let _ = self.body.pop_front();
                        self.body.push_front(Object::new(neck.position, g, neck.colour));
                        self.body.push_front(head);
                        assert(self@.body =~= straightened.update(1, with_glyph(neck, g)));
                    },
                    None => {},
                }
                self.requires_corner_update = false;
            }
        }
    }

    /// Advances the snake by one step of the simulation.
    pub fn update(&mut self)
        requires
            old(self)@.wf(),
        ensures
            final(self)@ == old(self)@.stepped(),
            final(self)@.wf(),
    {
        if self.alive {
            let head = self.body[0];
            let out_of_bounds = !head.position.is_in_bounds();
            let self_collision = self.head_on_body();
            self.alive = !self_collision && !out_of_bounds;
            if !self.alive {
                self.paint_dead();
            }
        }
        if self.alive {
            let head = self.body[0];
            let glyph = match self.direction {
                Direction::North | Direction::South => VERTICAL_GLYPH,
                Direction::East | Direction::West => HORIZONTAL_GLYPH,
            };
            let new_head = Object::new(head.position.offset(self.direction), glyph, head.colour);
            self.popped_tail = self.body.pop_back();
            self.body.push_front(new_head);
            assert(self@ == old(self)@.moved());
            proof {
                lemma_repainted_keeps_positions(self@);
            }
            self.update_corner_glyphs();
        } else {
            let _ = self.body.pop_front();
            assert(self@ =~= old(self)@.stepped());
        }
    }

    /// Paints every segment in the dead colour.
    fn paint_dead(&mut self)
        ensures
            final(self)@ == (SnakeState { body: recoloured(old(self)@.body), ..old(self)@ }),
    {
        let n = self.body.len();
        let mut painted: VecDeque<Object> = VecDeque::new();
        for i in 0..n
            invariant
                n == self@.body.len(),
                painted@ =~= recoloured(self@.body).subrange(0, i as int),
        {
            let seg = self.body[i];
            painted.push_back(Object::new(seg.position, seg.glyph, Colour::Dead));
            assert(painted@ =~= recoloured(self@.body).subrange(0, i + 1));
        }
        assert(painted@ =~= recoloured(self@.body));
        self.body = painted;
    }

    /// Whether a segment behind the head stands on the head's position.
    fn head_on_body(&self) -> (r: bool)
        requires
            self@.body.len() >= 1,
        ensures
            r == occupied_behind_head(self@.body, self@.body[0].position),
    {
        let head = self.body[0].position;
        let n = self.body.len();
        for i in 1..n
            invariant
                n == self@.body.len(),
                head == self@.body[0].position,
                forall|j: int| 1 <= j < i ==> self@.body[j].position != head,
        {
            if self.body[i].position == head {
                return true;
            }
        }
        false
    }
}

impl Default for Snake {
    /// A fresh snake of `STARTING_LENGTH` segments heading east.
    fn default() -> (r: Snake)
        ensures
            r@ == starting_snake(),
            r@.wf(),
    {
        let centre = Point::new(MAP_CENTRE_X, MAP_CENTRE_Y);
        let seg = Object::new(centre, HORIZONTAL_GLYPH, Colour::Snake);
        let mut body: VecDeque<Object> = VecDeque::new();
        for i in 0..STARTING_LENGTH - 1
            invariant
                body@ =~= Seq::new(i as nat, |k: int| seg),
        {
            body.push_back(seg);
            assert(body@ =~= Seq::new((i + 1) as nat, |k: int| seg));
        }
        let head = Object::new(centre.offset(Direction::East), HORIZONTAL_GLYPH, Colour::Snake);
        body.push_front(head);
        let r = Snake {
            body,
            direction: Direction::East,
            popped_tail: None,
            requires_corner_update: false,
            alive: true,
        };
        assert(r@.body =~= starting_snake().body);
        r
    }
}

/// The corner pass rewrites glyphs only: the length, every position and
/// every other field stay as they were.
proof fn lemma_repainted_keeps_positions(s: SnakeState)
    ensures
        s.repainted().body.len() == s.body.len(),
        forall|i: int| 0 <= i < s.body.len() ==> #[trigger] s.repainted().body[i].position == s.body[i].position,
        s.repainted().alive == s.alive,
        s.repainted().direction == s.direction,
        s.repainted().popped_tail == s.popped_tail,
{
}

/// Between two updates of a living snake its length changes only by growing:
/// an update that it survives keeps the length, and growing once before the
/// update makes it exactly one segment longer; growing a second time before
/// moving again changes nothing.
pub proof fn lemma_length_between_updates(p: SnakeState)
    requires
        p.wf(),
        p.alive,
        p.stepped().alive,
    ensures
        p.stepped().body.len() == p.body.len(),
        p.stepped().stepped().alive ==> p.stepped().stepped().body.len() == p.stepped().body.len(),
        p.stepped().grown().stepped().alive ==> p.stepped().grown().stepped().body.len()
            == p.stepped().body.len() + 1,
        p.stepped().grown().grown() == p.stepped().grown(),
{
    lemma_repainted_keeps_positions(p.moved());
    let s = p.stepped();
    lemma_repainted_keeps_positions(s.moved());
    lemma_repainted_keeps_positions(s.grown().moved());
}

/// A head that a move takes off the field or onto another segment kills the
/// snake at the following update.
pub proof fn lemma_collision_kills(s: SnakeState)
    requires
        s.wf(),
        s.alive,
        s.stepped().alive,
        s.stepped().head_collides(),
    ensures
        !s.stepped().stepped().alive,
{
}

/// A dead snake stays dead, whatever is done to it.
pub proof fn lemma_death_is_final(s: SnakeState, d: Direction)
    requires
        !s.alive,
    ensures
        !s.stepped().alive,
        !s.grown().alive,
        s.body.len() >= 2 ==> !s.turned(d).alive,
        !s.repainted().alive,
{
}

/// The snake a game starts with: a horizontal head one cell east of the centre,
/// the other segments stacked on the centre, heading east.
pub open spec fn starting_snake() -> SnakeState {
    let centre = Point { x: MAP_CENTRE_X, y: MAP_CENTRE_Y };
    let seg = Object { position: centre, glyph: HORIZONTAL_GLYPH, colour: Colour::Snake };
    let head = Object { position: Point { x: (MAP_CENTRE_X + 1) as i32, y: MAP_CENTRE_Y }, ..seg };
    SnakeState {
        body: seq![head] + Seq::new((STARTING_LENGTH - 1) as nat, |i: int| seg),
        direction: Direction::East,
        popped_tail: None,
        requires_corner_update: false,
        alive: true,
    }
}

} // verus!
