//! Plain values shared by the zone runtime: map points, facings, session
//! identities and the typed references that name one life of a player or
//! monster.
use vstd::prelude::*;

verus! {

/// A map tile.
#[derive(Clone, Copy, Debug, PartialEq, Eq, Structural)]
pub struct Point {
    pub x: i32,
    pub y: i32,
}

/// The eight Mir facings, clockwise from north.
#[derive(Clone, Copy, Debug, PartialEq, Eq, Structural)]
pub enum Direction {
    Up,
    UpRight,
    Right,
    DownRight,
    Down,
    DownLeft,
    Left,
    UpLeft,
}

/// The position of a facing in the clockwise order from north.
pub open spec fn spec_direction_index(d: Direction) -> int {
    match d {
        Direction::Up => 0,
        Direction::UpRight => 1,
        Direction::Right => 2,
        Direction::DownRight => 3,
        Direction::Down => 4,
        Direction::DownLeft => 5,
        Direction::Left => 6,
        Direction::UpLeft => 7,
    }
}

/// The facing at position `i` (taken modulo 8) of the clockwise order from
/// north.
pub open spec fn spec_direction_at(i: int) -> Direction {
    let k = i % 8;
    if k == 0 {
        Direction::Up
    } else if k == 1 {
        Direction::UpRight
    } else if k == 2 {
        Direction::Right
    } else if k == 3 {
        Direction::DownRight
    } else if k == 4 {
        Direction::Down
    } else if k == 5 {
        Direction::DownLeft
    } else if k == 6 {
        Direction::Left
    } else {
        Direction::UpLeft
    }
}

/// Facing `d` turned `steps` eighths clockwise (counter-clockwise when
/// negative).
pub open spec fn spec_rotated(d: Direction, steps: int) -> Direction {
    spec_direction_at(spec_direction_index(d) + steps)
}

/// Facing `d` turned `steps` eighths clockwise (counter-clockwise when
/// negative).
pub fn rotated(d: Direction, steps: i32) -> (r: Direction)
    ensures
        r == spec_rotated(d, steps as int),
{
    let i: i64 = match d {
        Direction::Up => 0,
        Direction::UpRight => 1,
        Direction::Right => 2,
        Direction::DownRight => 3,
        Direction::Down => 4,
        Direction::DownLeft => 5,
        Direction::Left => 6,
        Direction::UpLeft => 7,
    };
    let t: i64 = i + steps as i64;
    let k: i64 = if t >= 0 { t % 8 } else { (8 - ((-t) % 8)) % 8 };
    proof {
        assert(k == (i + steps as int) % 8) by (nonlinear_arith)
            requires
                t == i + steps as int,
                k == (if t >= 0 { (t as int) % 8 } else { (8 - ((-(t as int)) % 8)) % 8 }),
        ;
    }
    if k == 0 {
        Direction::Up
    } else if k == 1 {
        Direction::UpRight
    } else if k == 2 {
        Direction::Right
    } else if k == 3 {
        Direction::DownRight
    } else if k == 4 {
        Direction::Down
    } else if k == 5 {
        Direction::DownLeft
    } else if k == 6 {
        Direction::Left
    } else {
        Direction::UpLeft
    }
}

/// The authored hostility of a world entity.
#[derive(Clone, Copy, Debug, PartialEq, Eq, Structural)]
pub enum Disposition {
    Hostile,
    Neutral,
    Friendly,
}

/// The tile `n` steps from `p` along facing `d` (x grows eastward, y grows
/// southward).
pub open spec fn spec_offset(p: Point, d: Direction, n: int) -> Point {
    let (dx, dy): (int, int) = match d {
        Direction::Up => (0, -n),
        Direction::UpRight => (n, -n),
        Direction::Right => (n, 0),
        Direction::DownRight => (n, n),
        Direction::Down => (0, n),
        Direction::DownLeft => (-n, n),
        Direction::Left => (-n, 0),
        Direction::UpLeft => (-n, -n),
    };
    Point { x: (p.x + dx) as i32, y: (p.y + dy) as i32 }
}

/// Whether every tile within `n` steps of `p` has coordinates a 32-bit
/// integer holds.
pub open spec fn spec_offset_fits(p: Point, n: int) -> bool {
    i32::MIN + n <= p.x <= i32::MAX - n && i32::MIN + n <= p.y <= i32::MAX - n
}

/// The tile `n` steps from `p` along facing `d`.
pub fn offset_point(p: &Point, d: Direction, n: i32) -> (r: Point)
    requires
        0 <= n,
        spec_offset_fits(*p, n as int),
    ensures
        r == spec_offset(*p, d, n as int),
{
    match d {
        Direction::Up => Point { x: p.x, y: p.y - n },
        Direction::UpRight => Point { x: p.x + n, y: p.y - n },
        Direction::Right => Point { x: p.x + n, y: p.y },
        Direction::DownRight => Point { x: p.x + n, y: p.y + n },
        Direction::Down => Point { x: p.x, y: p.y + n },
        Direction::DownLeft => Point { x: p.x - n, y: p.y + n },
        Direction::Left => Point { x: p.x - n, y: p.y },
        Direction::UpLeft => Point { x: p.x - n, y: p.y - n },
    }
}

/// The facing from `a` toward `b` by the signs of the coordinate
/// differences; none when they are the same tile.
pub open spec fn spec_direction_toward(a: Point, b: Point) -> Option<Direction> {
    if a.x < b.x {
        Some(if a.y < b.y { Direction::DownRight } else if a.y > b.y { Direction::UpRight } else { Direction::Right })
    } else if a.x > b.x {
        Some(if a.y < b.y { Direction::DownLeft } else if a.y > b.y { Direction::UpLeft } else { Direction::Left })
    } else if a.y < b.y {
        Some(Direction::Down)
    } else if a.y > b.y {
        Some(Direction::Up)
    } else {
        None
    }
}

/// The facing from `a` toward `b` (see [`spec_direction_toward`]).
pub fn direction_toward(a: &Point, b: &Point) -> (r: Option<Direction>)
    ensures
        r == spec_direction_toward(*a, *b),
{
    if a.x < b.x {
        Some(if a.y < b.y { Direction::DownRight } else if a.y > b.y { Direction::UpRight } else { Direction::Right })
    } else if a.x > b.x {
        Some(if a.y < b.y { Direction::DownLeft } else if a.y > b.y { Direction::UpLeft } else { Direction::Left })
    } else if a.y < b.y {
        Some(Direction::Down)
    } else if a.y > b.y {
        Some(Direction::Up)
    } else {
        None
    }
}

/// The absolute difference of two coordinates.
pub open spec fn spec_abs_diff(a: i32, b: i32) -> int {
    if a >= b {
        a - b
    } else {
        b - a
    }
}

/// Chebyshev (king-move) distance between two tiles.
pub open spec fn spec_tile_distance(a: Point, b: Point) -> int {
    let dx = spec_abs_diff(a.x, b.x);
    let dy = spec_abs_diff(a.y, b.y);
    if dx >= dy {
        dx
    } else {
        dy
    }
}

/// Chebyshev distance between two tiles, as a wide integer.
pub fn tile_distance(a: &Point, b: &Point) -> (r: i64)
    ensures
        r == spec_tile_distance(*a, *b),
        r >= 0,
{
    let dx: i64 = if a.x >= b.x {
        a.x as i64 - b.x as i64
    } else {
        b.x as i64 - a.x as i64
    };
    let dy: i64 = if a.y >= b.y {
        a.y as i64 - b.y as i64
    } else {
        b.y as i64 - a.y as i64
    };
    if dx >= dy {
        dx
    } else {
        dy
    }
}

/// A connected session; its identity is the text it was opened with.
#[derive(Debug)]
pub struct SessionId {
    pub name: String,
}

impl View for SessionId {
    type V = Seq<char>;

    open spec fn view(&self) -> Seq<char> {
        self.name@
    }
}

impl SessionId {
    /// A session named by `name`.
    pub fn new(name: &str) -> (r: SessionId)
        ensures
            r@ == name@,
    {
        SessionId { name: name.to_string() }
    }

    /// Whether two sessions are the same session.
    pub fn same(&self, other: &SessionId) -> (r: bool)
        ensures
            r == (self@ == other@),
    {
        self.name == other.name
    }

    /// A second handle on the same session.
    pub fn duplicate(&self) -> (r: SessionId)
        ensures
            r@ == self@,
    {
        SessionId { name: self.name.clone() }
    }
}

/// The view of an optional session.
pub open spec fn opt_session_view(s: Option<SessionId>) -> Option<Seq<char>> {
    match s {
        Some(s) => Some(s@),
        None => None,
    }
}

/// A second handle on an optional session.
pub fn duplicate_opt_session(s: &Option<SessionId>) -> (r: Option<SessionId>)
    ensures
        opt_session_view(r) == opt_session_view(*s),
{
    match s {
        Some(s) => Some(s.duplicate()),
        None => None,
    }
}

/// Whether two optional sessions are equal (both absent, or the same session).
pub fn same_opt_session(a: &Option<SessionId>, b: &Option<SessionId>) -> (r: bool)
    ensures
        r == (opt_session_view(*a) == opt_session_view(*b)),
{
    match (a, b) {
        (Some(a), Some(b)) => a.same(b),
        (None, None) => true,
        _ => false,
    }
}

/// One life of a combat entity. A player reference is bound to the life
/// generation it was taken in, a monster reference to its incarnation, so
/// a reference never crosses a death and revival.
#[derive(Debug)]
pub enum EntityRef {
    Player { session_id: SessionId, object_id: u32, life_generation: u64 },
    Monster { object_id: u32, incarnation: u64 },
}

/// The plain value of an [`EntityRef`].
pub enum EntityRefView {
    Player { session: Seq<char>, object_id: u32, life_generation: u64 },
    Monster { object_id: u32, incarnation: u64 },
}

impl View for EntityRef {
    type V = EntityRefView;

    open spec fn view(&self) -> EntityRefView {
        match self {
            EntityRef::Player { session_id, object_id, life_generation } => EntityRefView::Player {
                session: session_id@,
                object_id: *object_id,
                life_generation: *life_generation,
            },
            EntityRef::Monster { object_id, incarnation } => EntityRefView::Monster {
                object_id: *object_id,
                incarnation: *incarnation,
            },
        }
    }
}

impl EntityRefView {
    /// The object id named by the reference.
    pub open spec fn object_id(self) -> u32 {
        match self {
            EntityRefView::Player { object_id, .. } => object_id,
            EntityRefView::Monster { object_id, .. } => object_id,
        }
    }
}

/// The view of an optional reference.
pub open spec fn opt_ref_view(r: Option<EntityRef>) -> Option<EntityRefView> {
    match r {
        Some(r) => Some(r@),
        None => None,
    }
}

impl EntityRef {
    /// The object id named by the reference, whatever its kind.
    pub fn object_id(&self) -> (r: u32)
        ensures
            r == self@.object_id(),
    {
        match self {
            EntityRef::Player { object_id, .. } => *object_id,
            EntityRef::Monster { object_id, .. } => *object_id,
        }
    }

    /// Whether two references name the same life.
    pub fn same(&self, other: &EntityRef) -> (r: bool)
        ensures
            r == (self@ == other@),
    {
        match (self, other) {
            (
                EntityRef::Player { session_id: s1, object_id: o1, life_generation: l1 },
                EntityRef::Player { session_id: s2, object_id: o2, life_generation: l2 },
            ) => *o1 == *o2 && *l1 == *l2 && s1.same(s2),
            (
                EntityRef::Monster { object_id: o1, incarnation: i1 },
                EntityRef::Monster { object_id: o2, incarnation: i2 },
            ) => *o1 == *o2 && *i1 == *i2,
            _ => false,
        }
    }

    /// A second handle on the same life.
    pub fn duplicate(&self) -> (r: EntityRef)
        ensures
            r@ == self@,
    {
        match self {
            EntityRef::Player { session_id, object_id, life_generation } => EntityRef::Player {
                session_id: session_id.duplicate(),
                object_id: *object_id,
                life_generation: *life_generation,
            },
            EntityRef::Monster { object_id, incarnation } => EntityRef::Monster {
                object_id: *object_id,
                incarnation: *incarnation,
            },
        }
    }

    /// Whether this is a monster reference.
    pub fn is_monster(&self) -> (r: bool)
        ensures
            r == (self@ is Monster),
    {
        match self {
            EntityRef::Monster { .. } => true,
            _ => false,
        }
    }
}

/// A second handle on an optional reference.
pub fn duplicate_opt_ref(r: &Option<EntityRef>) -> (d: Option<EntityRef>)
    ensures
        opt_ref_view(d) == opt_ref_view(*r),
{
    match r {
        Some(r) => Some(r.duplicate()),
        None => None,
    }
}

} // verus!
