use vstd::prelude::*;
use crate::geometry::{
    in_grid, is_unit_direction, sentinel, step, wrap_step, Point, CAPACITY, SIDE, SPRITE_SIZE,
};

verus! {

/// Draw colours of the snake's head.
pub const HEAD_COLORS: u16 = 0x4;

/// Draw colours of the rest of the body.
pub const BODY_COLORS: u16 = 0x43;

/// A filled rectangle for the host to draw, in pixels.
#[derive(Clone, Copy, PartialEq, Eq, Structural, Debug)]
pub struct Rect {
    pub colors: u16,
    pub x: i32,
    pub y: i32,
    pub width: u32,
    pub height: u32,
}

/// The snake: a fixed-capacity body whose first `len` slots are active, and a direction.
pub struct Snake {
    body: Vec<Point>,
    len: usize,
    direction: Point,
}

/// The mathematical model of a snake.
pub ghost struct SnakeModel {
    /// Every slot of the body, active or not; index 0 is the head.
    pub body: Seq<Point>,
    /// Number of active segments.
    pub len: nat,
    /// The vector subtracted from the head at each step.
    pub direction: Point,
}

/// Direction set by `left`.
pub open spec fn dir_left() -> Point {
    Point { x: 1i8, y: 0i8 }
}

/// Direction set by `right`.
pub open spec fn dir_right() -> Point {
    Point { x: -1i8, y: 0i8 }
}

/// Direction set by `up`.
pub open spec fn dir_up() -> Point {
    Point { x: 0i8, y: 1i8 }
}

/// Direction set by `down`.
pub open spec fn dir_down() -> Point {
    Point { x: 0i8, y: -1i8 }
}

/// The direction after asking to turn from `dir` to `want`: the turn happens only when
/// the current motion runs along the other axis, so the snake never reverses.
pub open spec fn turn(dir: Point, want: Point) -> Point {
    if (want.x != 0 && dir.x == 0) || (want.y != 0 && dir.y == 0) {
        want
    } else {
        dir
    }
}

/// The rectangle that shows the segment at `p`, the head with its own colours.
pub open spec fn segment_rect(p: Point, is_head: bool) -> Rect {
    Rect {
        colors: if is_head { HEAD_COLORS } else { BODY_COLORS },
        x: (p.x * SPRITE_SIZE) as i32,
        y: (p.y * SPRITE_SIZE) as i32,
        width: SPRITE_SIZE as u32,
        height: SPRITE_SIZE as u32,
    }
}

impl SnakeModel {
    /// The active segments, head first.
    pub open spec fn segments(self) -> Seq<Point> {
        self.body.take(self.len as int)
    }

    pub open spec fn head(self) -> Point {
        self.body[0]
    }

    /// The body has one slot per grid cell; the active segments form one run from index 0,
    /// each on the grid, and every slot after that run holds the sentinel.
    pub open spec fn wf(self) -> bool {
        &&& self.body.len() == CAPACITY
        &&& 1 <= self.len <= CAPACITY
        &&& forall|i: int| 0 <= i < self.len ==> in_grid(#[trigger] self.body[i])
        &&& forall|i: int| self.len <= i < CAPACITY ==> #[trigger] self.body[i] == sentinel()
        &&& is_unit_direction(self.direction)
    }

    /// Number of active segments after one move: one more when growing below capacity.
    pub open spec fn grown_len(self, grow: bool) -> nat {
        if grow && self.len < CAPACITY {
            self.len + 1
        } else {
            self.len
        }
    }

    /// The snake after one move: a new head one step away, each following segment where
    /// its predecessor was, and the old tail kept only when growing.
    pub open spec fn moved(self, grow: bool) -> SnakeModel {
        let n = self.grown_len(grow) as int;
        SnakeModel {
            body: seq![step(self.head(), self.direction)] + self.body.take(n - 1) + self.body.skip(n),
            len: n as nat,
            direction: self.direction,
        }
    }

    /// The snake after asking to turn towards `want`.
    pub open spec fn turned(self, want: Point) -> SnakeModel {
        SnakeModel { direction: turn(self.direction, want), ..self }
    }
}

/// A move keeps a well-formed snake well-formed.
pub proof fn lemma_moved_wf(s: SnakeModel, grow: bool)
    requires
        s.wf(),
    ensures
        s.moved(grow).wf(),
{
    let m = s.moved(grow);
    let n = s.grown_len(grow) as int;
    let h = step(s.head(), s.direction);
    assert(in_grid(s.head()));
    assert(in_grid(h));
    assert forall|i: int| 0 <= i < m.len implies in_grid(#[trigger] m.body[i]) by {
        if i > 0 {
            assert(m.body[i] == s.body[i - 1]);
        }
    }
    assert forall|i: int| m.len <= i < CAPACITY implies #[trigger] m.body[i] == sentinel() by {
        assert(m.body[i] == s.body[i]);
    }
}

/// A move without growth keeps the number of segments; a move with growth adds one,
/// up to the capacity.
pub proof fn lemma_move_length(s: SnakeModel)
    requires
        s.wf(),
    ensures
        s.moved(false).len == s.len,
        s.moved(false).segments().len() == s.segments().len(),
        s.len < CAPACITY ==> s.moved(true).len == s.len + 1,
        s.len == CAPACITY ==> s.moved(true).len == CAPACITY,
{
}

/// The head wraps around the grid: a step left from column 0 reaches the last column, a
/// step right from the last column reaches column 0, and the same holds for rows.
pub proof fn lemma_head_wraps(s: SnakeModel, grow: bool)
    requires
        s.wf(),
    ensures
        s.head().x == 0 && s.direction == dir_left() ==> s.moved(grow).head() == (Point { x: (SIDE - 1) as i8, y: s.head().y }),
        s.head().x == SIDE - 1 && s.direction == dir_right() ==> s.moved(grow).head() == (Point { x: 0i8, y: s.head().y }),
        s.head().y == 0 && s.direction == dir_up() ==> s.moved(grow).head() == (Point { x: s.head().x, y: (SIDE - 1) as i8 }),
        s.head().y == SIDE - 1 && s.direction == dir_down() ==> s.moved(grow).head() == (Point { x: s.head().x, y: 0i8 }),
{
    assert(in_grid(s.head()));
    assert(SIDE == 20);
}

/// A turn along the axis the snake already moves on changes nothing, so the snake never
/// reverses: after `left`, a `right` leaves the direction as `left` set it.
pub proof fn lemma_turn_same_axis(s: SnakeModel, want: Point)
    requires
        s.wf(),
        is_unit_direction(want),
    ensures
        want.x != 0 && s.direction.x != 0 ==> s.turned(want) == s,
        want.y != 0 && s.direction.y != 0 ==> s.turned(want) == s,
        s.turned(dir_left()).turned(dir_right()) == s.turned(dir_left()),
        s.turned(dir_up()).turned(dir_down()) == s.turned(dir_up()),
{
}

impl View for Snake {
    type V = SnakeModel;

    closed spec fn view(&self) -> SnakeModel {
        SnakeModel { body: self.body@, len: self.len as nat, direction: self.direction }
    }
}

impl Snake {
    pub open spec fn wf(&self) -> bool {
        self@.wf()
    }

    /// A snake of three segments at `(0, 0)`, `(1, 0)`, `(2, 0)` with direction `(1, 0)`.
    pub fn new() -> (r: Snake)
        ensures
            r.wf(),
            r@.segments() == seq![Point { x: 0i8, y: 0i8 }, Point { x: 1i8, y: 0i8 }, Point { x: 2i8, y: 0i8 }],
            r@.direction == dir_left(),
    {
        let mut body: Vec<Point> = Vec::new();
        let mut i: usize = 0;
        while i < CAPACITY
            invariant
                i <= CAPACITY,
                body@.len() == i,
                forall|j: int| 0 <= j < i ==> #[trigger] body@[j] == sentinel(),
            decreases CAPACITY - i,
        {
            body.push(Point::new(-1, -1));
            i = i + 1;
        }
        body[0] = Point::new(0, 0);
        body[1] = Point::new(1, 0);
        body[2] = Point::new(2, 0);
        let r = Snake { body, len: 3, direction: Point::new(1, 0) };
        assert(r@.segments() =~= seq![Point { x: 0i8, y: 0i8 }, Point { x: 1i8, y: 0i8 }, Point { x: 2i8, y: 0i8 }]);
        r
    }

    /// A snake with the given active segments, head first, and direction; `None` unless
    /// there are between one and `CAPACITY` segments, all on the grid, and the direction
    /// is a unit vector along one axis.
    pub fn from_segments(segments: &Vec<Point>, direction: Point) -> (r: Option<Snake>)
        ensures
            r.is_some() <==> (1 <= segments@.len() <= CAPACITY && (forall|i: int|
                0 <= i < segments@.len() ==> in_grid(#[trigger] segments@[i])) && is_unit_direction(direction)),
            r matches Some(s) ==> s.wf() && s@.segments() == segments@ && s@.direction == direction,
    {
        let n = segments.len();
        if n < 1 || n > CAPACITY {
            return None;
        }
        if !((direction.x == 0 && (direction.y == 1 || direction.y == -1)) || (direction.y == 0
            && (direction.x == 1 || direction.x == -1))) {
            return None;
        }
        let mut body: Vec<Point> = Vec::new();
        let mut i: usize = 0;
        while i < CAPACITY
            invariant
                1 <= n <= CAPACITY,
                n == segments@.len(),
                i <= CAPACITY,
                body@.len() == i,
                forall|j: int| 0 <= j < i && j < n ==> #[trigger] body@[j] == segments@[j],
                forall|j: int| n <= j < i ==> #[trigger] body@[j] == sentinel(),
                forall|j: int| 0 <= j < i && j < n ==> in_grid(#[trigger] segments@[j]),
            decreases CAPACITY - i,
        {
            if i < n {
                let p = segments[i];
                if !(0 <= p.x && p.x < SIDE && 0 <= p.y && p.y < SIDE) {
                    return None;
                }
                body.push(p);
            } else {
                body.push(Point::new(-1, -1));
            }
            i = i + 1;
        }
        let r = Snake { body, len: n, direction };
        assert(r@.segments() =~= segments@);
        Some(r)
    }

    /// Advances one cell: the head moves against the direction vector and wraps around
    /// the grid, every other segment takes its predecessor's place, and when `grow` holds
    /// (below capacity) the old tail stays as a new last segment.
    pub fn update(&mut self, grow: bool)
        requires
            old(self).wf(),
        ensures
            final(self).wf(),
            final(self)@ == old(self)@.moved(grow),
    {
        let ghost before = self@;
        let n: usize = if grow && self.len < CAPACITY {
            self.len + 1
        } else {
            self.len
        };
        let mut i: usize = n;
        while i > 1
            invariant
                before.wf(),
                n == before.grown_len(grow),
                1 <= i <= n,
                self.len == before.len,
                self.direction == before.direction,
                self.body@.len() == CAPACITY,
                forall|j: int| 0 <= j < i ==> #[trigger] self.body@[j] == before.body[j],
                forall|j: int| i <= j < n ==> #[trigger] self.body@[j] == before.body[j - 1],
                forall|j: int| n <= j < CAPACITY ==> #[trigger] self.body@[j] == before.body[j],
            decreases i,
        {
            i = i - 1;
            let prev = self.body[i - 1];
            self.body[i] = prev;
        }
        let head = self.body[0];
        let x = wrap_step(head.x, self.direction.x);
        let y = wrap_step(head.y, self.direction.y);
        self.body[0] = Point::new(x, y);
        self.len = n;
        assert(self.body@ =~= before.moved(grow).body);
    }

    /// Turns to direction `(1, 0)` unless the snake already moves along the x axis.
    pub fn left(&mut self)
        requires
            old(self).wf(),
        ensures
            final(self).wf(),
            final(self)@ == old(self)@.turned(dir_left()),
    {
        if self.direction.x == 0 {
            self.direction.x = 1;
            self.direction.y = 0;
        }
    }

    /// Turns to direction `(-1, 0)` unless the snake already moves along the x axis.
    pub fn right(&mut self)
        requires
            old(self).wf(),
        ensures
            final(self).wf(),
            final(self)@ == old(self)@.turned(dir_right()),
    {
        if self.direction.x == 0 {
            self.direction.x = -1;
            self.direction.y = 0;
        }
    }

    /// Turns to direction `(0, 1)` unless the snake already moves along the y axis.
    pub fn up(&mut self)
        requires
            old(self).wf(),
        ensures
            final(self).wf(),
            final(self)@ == old(self)@.turned(dir_up()),
    {
        if self.direction.y == 0 {
            self.direction.x = 0;
            self.direction.y = 1;
        }
    }

    /// Turns to direction `(0, -1)` unless the snake already moves along the y axis.
    pub fn down(&mut self)
        requires
            old(self).wf(),
        ensures
            final(self).wf(),
            final(self)@ == old(self)@.turned(dir_down()),
    {
        if self.direction.y == 0 {
            self.direction.x = 0;
            self.direction.y = -1;
        }
    }

    /// The rectangles that show the snake, one per active segment, head first.
    pub fn draw(&self) -> (r: Vec<Rect>)
        requires
            self.wf(),
        ensures
            r@.len() == self@.len,
            forall|i: int| 0 <= i < r@.len() ==> #[trigger] r@[i] == segment_rect(self@.body[i], i == 0),
    {
        let mut r: Vec<Rect> = Vec::new();
        let mut i: usize = 0;
        while i < self.len
            invariant
                self.wf(),
                i <= self.len,
                r@.len() == i,
                forall|j: int| 0 <= j < i ==> #[trigger] r@[j] == segment_rect(self@.body[j], j == 0),
            decreases self.len - i,
        {
            let p = self.body[i];
            let colors: u16 = if i == 0 {
                HEAD_COLORS
            } else {
                BODY_COLORS
            };
            r.push(Rect {
                colors,
                x: p.x as i32 * SPRITE_SIZE as i32,
                y: p.y as i32 * SPRITE_SIZE as i32,
                width: SPRITE_SIZE as u32,
                height: SPRITE_SIZE as u32,
            });
            i = i + 1;
        }
        r
    }

    /// Number of active segments.
    pub fn len(&self) -> (r: usize)
        ensures
            r == self@.len,
    {
        self.len
    }

    /// The active segment at index `i`; index 0 is the head.
    pub fn segment(&self, i: usize) -> (r: Point)
        requires
            i < self@.len,
            self.wf(),
        ensures
            r == self@.segments()[i as int],
    {
        self.body[i]
    }

    /// The active segments, head first.
    pub fn segments(&self) -> (r: Vec<Point>)
        requires
            self.wf(),
        ensures
            r@ == self@.segments(),
    {
        let mut r: Vec<Point> = Vec::new();
        let mut i: usize = 0;
        while i < self.len
            invariant
                self.wf(),
                i <= self.len,
                r@ == self@.body.take(i as int),
            decreases self.len - i,
        {
            r.push(self.body[i]);
            i = i + 1;
            assert(r@ =~= self@.body.take(i as int));
        }
        r
    }

    /// The direction vector, subtracted from the head at each step.
    pub fn direction(&self) -> (r: Point)
        ensures
            r == self@.direction,
    {
        self.direction
    }

    /// Whether an active segment lies on `p`.
    pub fn occupies(&self, p: Point) -> (r: bool)
        requires
            self.wf(),
        ensures
            r == self@.segments().contains(p),
    {
        let mut i: usize = 0;
        while i < self.len
            invariant
                self.wf(),
                i <= self.len,
                forall|j: int| 0 <= j < i ==> #[trigger] self@.body[j] != p,
            decreases self.len - i,
        {
            if self.body[i].equals(p) {
                assert(self@.segments()[i as int] == p);
                return true;
            }
            i = i + 1;
        }
        false
    }
}

} // verus!
