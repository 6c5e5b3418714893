use vstd::prelude::*;

use crate::random::{random_range, random_u64};

verus! {

/// Stars drawn in each visible sector.
pub const STARS_PER_SECTOR: usize = 50;

/// At most this many asteroids populate a newly created sector.
pub const ASTEROIDS_MAX_PER_SECTOR: usize = 5;

/// Least health of an asteroid born with a new sector.
pub const ASTEROID_HEALTH_MIN: u32 = 10;

/// Greatest health of an asteroid born with a new sector.
pub const ASTEROID_HEALTH_MAX: u32 = 60;

/// A sector of the map: a window-sized cell of the plane at grid position
/// `(i, j)`, the ids of the sectors around it, the seed of its stars and
/// whether it is shown.
pub struct Sector {
    pub i: isize,
    pub j: isize,
    pub neighbours: Vec<usize>,
    pub seed: u64,
    pub visible: bool,
}

/// The id of the sector in which the camera was last seen.
pub struct CurrentSectorId(pub usize);

/// All the sectors created so far; a sector's id is its index.
pub struct SectorMap {
    pub sectors: Vec<Sector>,
    pub current: CurrentSectorId,
}

/// A sector created by an update of the map, with the healths of the
/// asteroids that populate it.
pub struct NewSector {
    pub id: usize,
    pub i: isize,
    pub j: isize,
    pub seed: u64,
    pub asteroid_healths: Vec<u32>,
}

/// What an update of the map asks of the world: the sectors to hide (and empty
/// of their stars), the sectors to fill with stars, and the sectors created.
pub struct MapUpdate {
    pub hidden: Vec<usize>,
    pub stars: Vec<usize>,
    pub created: Vec<NewSector>,
}

/// Bound on the grid coordinates of the camera: the block around the camera,
/// one step further along each axis, must still lie within `isize`.
pub open spec fn coord_limit() -> int {
    isize::MAX as int - 1
}

pub open spec fn within_limit(x: int) -> bool {
    -coord_limit() <= x <= coord_limit()
}

/// Bound on the grid coordinates of the sectors: one step beyond the camera's.
pub open spec fn in_map_bounds(x: int) -> bool {
    -coord_limit() - 1 <= x <= coord_limit() + 1
}

/// All sectors lie within bounds and no two share a position.
pub open spec fn positions_ok(s: Seq<Sector>) -> bool {
    &&& s.len() <= usize::MAX
    &&& forall|k: int| 0 <= k < s.len() ==>
        in_map_bounds(#[trigger] s[k].i as int) && in_map_bounds(s[k].j as int)
    &&& forall|k: int, l: int|
        0 <= k < s.len() && 0 <= l < s.len() && k != l ==> !(#[trigger] s[k]).at(
            (#[trigger] s[l]).i as int,
            s[l].j as int,
        )
}

/// Grid positions `(i1, j1)` and `(i2, j2)` are at most one step apart
/// along each axis.
pub open spec fn near(i1: int, j1: int, i2: int, j2: int) -> bool {
    -1 <= i1 - i2 <= 1 && -1 <= j1 - j2 <= 1
}

impl Sector {
    pub open spec fn at(self, i: int, j: int) -> bool {
        self.i == i && self.j == j
    }

    pub open spec fn near(self, i: int, j: int) -> bool {
        near(self.i as int, self.j as int, i, j)
    }
}

/// The ids below `upto`, in increasing order, of the sectors other than `k`
/// that are near sector `k`.
pub open spec fn adjacent_ids(s: Seq<Sector>, k: int, upto: nat) -> Seq<usize>
    decreases upto,
{
    if upto == 0 {
        Seq::empty()
    } else {
        let m = upto - 1;
        let prev = adjacent_ids(s, k, m as nat);
        if m != k && s[m].near(s[k].i as int, s[k].j as int) {
            prev.push(m as usize)
        } else {
            prev
        }
    }
}

/// The nine positions around `(i, j)`, row by row: position `t` is
/// `(i + t / 3 - 1, j + t % 3 - 1)`.
pub open spec fn block_position(i: int, j: int, t: int) -> (int, int) {
    (i + t / 3 - 1, j + t % 3 - 1)
}


/// Facts on `adjacent_ids`: its ids are below `upto`, differ from `k`, name
/// sectors near `k`, come in increasing order, and every such sector is there.
pub proof fn lemma_adjacent_ids(s: Seq<Sector>, k: int, upto: nat)
    requires
        0 <= k < s.len(),
        upto <= s.len(),
        s.len() <= usize::MAX,
    ensures
        adjacent_ids(s, k, upto).len() <= upto,
        forall|a: int| 0 <= a < adjacent_ids(s, k, upto).len() ==> {
            let m = #[trigger] adjacent_ids(s, k, upto)[a];
            &&& m < upto
            &&& m != k
            &&& s[m as int].near(s[k].i as int, s[k].j as int)
        },
        forall|a: int, b: int| 0 <= a < b < adjacent_ids(s, k, upto).len() ==>
            #[trigger] adjacent_ids(s, k, upto)[a] < #[trigger] adjacent_ids(s, k, upto)[b],
        forall|m: int| 0 <= m < upto && m != k && (#[trigger] s[m]).near(s[k].i as int, s[k].j as int)
            ==> adjacent_ids(s, k, upto).contains(m as usize),
    decreases upto,
{
    if upto > 0 {
        let m = upto - 1;
        lemma_adjacent_ids(s, k, m as nat);
        let prev = adjacent_ids(s, k, m as nat);
        let ids = adjacent_ids(s, k, upto);
        if m != k && s[m].near(s[k].i as int, s[k].j as int) {
            assert(ids == prev.push(m as usize));
            assert(ids[prev.len() as int] == m as usize);
            assert forall|a: int, b: int| 0 <= a < b < ids.len() implies #[trigger] ids[a] < #[trigger] ids[b] by {
                if b < prev.len() {
                    assert(ids[a] == prev[a] && ids[b] == prev[b]);
                } else {
                    assert(ids[a] == prev[a]);
                }
            }
        } else {
            assert(ids == prev);
        }
        assert forall|x: int| 0 <= x < upto && x != k && (#[trigger] s[x]).near(s[k].i as int, s[k].j as int)
            implies adjacent_ids(s, k, upto).contains(x as usize) by {
            if x < m {
                let a = choose|a: int| 0 <= a < prev.len() && prev[a] == x as usize;
                assert(adjacent_ids(s, k, upto)[a] == x as usize);
            } else {
                assert(adjacent_ids(s, k, upto)[prev.len() as int] == x as usize);
            }
        }
    }
}

/// `adjacent_ids` only reads the positions of the sectors below `upto` and of
/// sector `k`.
pub proof fn lemma_adjacent_ids_agree(s1: Seq<Sector>, s2: Seq<Sector>, k: int, upto: nat)
    requires
        0 <= k < s1.len(),
        k < s2.len(),
        upto <= s1.len(),
        upto <= s2.len(),
        s1[k].i == s2[k].i,
        s1[k].j == s2[k].j,
        forall|m: int| 0 <= m < upto ==> (#[trigger] s1[m]).i == s2[m].i && s1[m].j == s2[m].j,
    ensures
        adjacent_ids(s1, k, upto) == adjacent_ids(s2, k, upto),
    decreases upto,
{
    if upto > 0 {
        lemma_adjacent_ids_agree(s1, s2, k, (upto - 1) as nat);
        assert(s1[upto - 1].i == s2[upto - 1].i);
    }
}

/// Whether two positions, both within bounds, are near each other.
fn is_near(i1: isize, j1: isize, i2: isize, j2: isize) -> (b: bool)
    requires
        in_map_bounds(i1 as int),
        in_map_bounds(j1 as int),
        in_map_bounds(i2 as int),
        in_map_bounds(j2 as int),
    ensures
        b == near(i1 as int, j1 as int, i2 as int, j2 as int),
{
    let near_i = if i1 <= i2 { i1 == i2 || i1 + 1 == i2 } else { i2 + 1 == i1 };
    let near_j = if j1 <= j2 { j1 == j2 || j1 + 1 == j2 } else { j2 + 1 == j1 };
    near_i && near_j
}

/// The ids of the sectors near sector `k`, other than `k`, by increasing id.
fn adjacent_ids_of(sectors: &Vec<Sector>, k: usize) -> (ids: Vec<usize>)
    requires
        k < sectors@.len(),
        forall|m: int| 0 <= m < sectors@.len() ==>
            in_map_bounds(#[trigger] sectors@[m].i as int) && in_map_bounds(sectors@[m].j as int),
    ensures
        ids@ == adjacent_ids(sectors@, k as int, sectors@.len()),
{
    let mut ids: Vec<usize> = Vec::new();
    let n = sectors.len();
    let ki = sectors[k].i;
    let kj = sectors[k].j;
    let mut m: usize = 0;
    while m < n
        invariant
            n == sectors@.len(),
            k < n,
            m <= n,
            ki == sectors@[k as int].i,
            kj == sectors@[k as int].j,
            forall|x: int| 0 <= x < sectors@.len() ==>
                in_map_bounds(#[trigger] sectors@[x].i as int) && in_map_bounds(sectors@[x].j as int),
            ids@ == adjacent_ids(sectors@, k as int, m as nat),
        decreases n - m,
    {
        if m != k && is_near(sectors[m].i, sectors[m].j, ki, kj) {
            ids.push(m);
        }
        m = m + 1;
    }
    ids
}


/// The index in the block around `(ci, cj)` of position `(i, j)`.
pub open spec fn block_index(i: int, j: int, ci: int, cj: int) -> int {
    (i - ci + 1) * 3 + (j - cj + 1)
}

/// Whether the sector with a given id is more than one step away from
/// `(i, j)` along some axis.
pub open spec fn far_from(s: Seq<Sector>, i: int, j: int) -> spec_fn(usize) -> bool {
    |id: usize| !s[id as int].near(i, j)
}

/// The positions among the first `t` of the block around `(i, j)` at which the
/// map knows no sector, in block order.
pub open spec fn missing_positions(map: SectorMap, i: int, j: int, t: nat) -> Seq<(int, int)>
    decreases t,
{
    if t == 0 {
        Seq::empty()
    } else {
        let prev = missing_positions(map, i, j, (t - 1) as nat);
        let p = block_position(i, j, t - 1);
        if map.known(p.0, p.1) {
            prev
        } else {
            prev.push(p)
        }
    }
}


/// The number of asteroids of a new sector, from a draw in
/// `[0, ASTEROIDS_MAX_PER_SECTOR]`.
fn asteroid_count(draw: usize) -> (n: usize)
    requires
        draw <= ASTEROIDS_MAX_PER_SECTOR,
    ensures
        n == draw,
{
    draw
}

/// The health of an asteroid of a new sector, from a draw in
/// `[ASTEROID_HEALTH_MIN, ASTEROID_HEALTH_MAX]`.
fn asteroid_health(draw: usize) -> (h: u32)
    requires
        ASTEROID_HEALTH_MIN <= draw <= ASTEROID_HEALTH_MAX,
    ensures
        h == draw,
{
    draw as u32
}

/// The healths of the asteroids that populate a new sector: at most
/// `ASTEROIDS_MAX_PER_SECTOR` of them, each drawn in
/// `[ASTEROID_HEALTH_MIN, ASTEROID_HEALTH_MAX]`.
fn new_asteroid_healths() -> (healths: Vec<u32>)
    ensures
        healths@.len() <= ASTEROIDS_MAX_PER_SECTOR,
        forall|x: int| 0 <= x < healths@.len() ==>
            ASTEROID_HEALTH_MIN <= #[trigger] healths@[x] <= ASTEROID_HEALTH_MAX,
{
    let count = asteroid_count(random_range(0, ASTEROIDS_MAX_PER_SECTOR + 1));
    let mut healths: Vec<u32> = Vec::new();
    let mut a: usize = 0;
    while a < count
        invariant
            a <= count,
            count <= ASTEROIDS_MAX_PER_SECTOR,
            healths@.len() == a,
            forall|x: int| 0 <= x < healths@.len() ==>
                ASTEROID_HEALTH_MIN <= #[trigger] healths@[x] <= ASTEROID_HEALTH_MAX,
        decreases count - a,
    {
        let health = asteroid_health(random_range(ASTEROID_HEALTH_MIN as usize, ASTEROID_HEALTH_MAX as usize + 1));
        healths.push(health);
        a = a + 1;
    }
    healths
}

/// The positions missing from a map around `(i, j)` are unknown to it and
/// near `(i, j)`.
pub proof fn lemma_missing_positions(map: SectorMap, i: int, j: int, t: nat)
    requires
        t <= 9,
    ensures
        missing_positions(map, i, j, t).len() <= t,
        forall|m: int| 0 <= m < missing_positions(map, i, j, t).len() ==> {
            let p = #[trigger] missing_positions(map, i, j, t)[m];
            &&& near(p.0, p.1, i, j)
            &&& !map.known(p.0, p.1)
        },
    decreases t,
{
    if t > 0 {
        lemma_missing_positions(map, i, j, (t - 1) as nat);
    }
}

/// `missing_positions` only depends on which positions the map knows.
pub proof fn lemma_missing_positions_same(a: SectorMap, b: SectorMap, i: int, j: int, t: nat)
    requires
        forall|p0: int, p1: int| a.known(p0, p1) <==> b.known(p0, p1),
    ensures
        missing_positions(a, i, j, t) == missing_positions(b, i, j, t),
    decreases t,
{
    if t > 0 {
        lemma_missing_positions_same(a, b, i, j, (t - 1) as nat);
        let p = block_position(i, j, t - 1);
        assert(a.known(p.0, p.1) == b.known(p.0, p.1));
    }
}

/// How many of the first `t` positions of the block around the origin,
/// shifted by `(di, dj)`, lie out of reach of the origin.
pub open spec fn shifted_outside(di: int, dj: int, t: nat) -> nat
    decreases t,
{
    if t == 0 {
        0
    } else {
        let u = t - 1;
        let prev = shifted_outside(di, dj, u as nat);
        if near(u / 3 - 1 + di, u % 3 - 1 + dj, 0, 0) {
            prev
        } else {
            prev + 1
        }
    }
}

/// Only positions out of reach of a sector whose block is known can be
/// missing.
proof fn lemma_missing_outside(map: SectorMap, ci: int, cj: int, ki: int, kj: int, t: nat)
    requires
        t <= 9,
        forall|u: int| 0 <= u < 9 ==> map.known(#[trigger] block_position(ki, kj, u).0, block_position(ki, kj, u).1),
    ensures
        missing_positions(map, ci, cj, t).len() <= shifted_outside(ci - ki, cj - kj, t),
    decreases t,
{
    if t > 0 {
        lemma_missing_outside(map, ci, cj, ki, kj, (t - 1) as nat);
        let u = t - 1;
        let p = block_position(ci, cj, u);
        if near(u / 3 - 1 + (ci - ki), u % 3 - 1 + (cj - kj), 0, 0) {
            let v = block_index(p.0, p.1, ki, kj);
            assert(block_position(ki, kj, v) == p);
            assert(map.known(block_position(ki, kj, v).0, block_position(ki, kj, v).1));
        }
    }
}

/// When the nine sectors around the current one are known and the camera
/// moves to the next sector along an axis, at most three sectors are missing
/// around the camera, so an update creates at most three.
pub proof fn law_axis_move_creates_at_most_three(map: SectorMap, ci: int, cj: int)
    requires
        map.wf(),
        ({
            let c = map.sectors@[map.current.0 as int];
            &&& forall|u: int| 0 <= u < 9 ==>
                map.known(#[trigger] block_position(c.i as int, c.j as int, u).0, block_position(c.i as int, c.j as int, u).1)
            &&& ((ci == c.i && (cj == c.j + 1 || cj == c.j - 1)) || (cj == c.j && (ci == c.i + 1 || ci == c.i - 1)))
        }),
    ensures
        missing_positions(map, ci, cj, 9).len() <= 3,
{
    let c = map.sectors@[map.current.0 as int];
    lemma_missing_outside(map, ci, cj, c.i as int, c.j as int, 9);
    reveal_with_fuel(shifted_outside, 10);
    assert(shifted_outside(0, 1, 9) == 3);
    assert(shifted_outside(0, -1, 9) == 3);
    assert(shifted_outside(1, 0, 9) == 3);
    assert(shifted_outside(-1, 0, 9) == 3);
}

/// What a move of the camera to `(ci, cj)`, away from the current sector of
/// `before`, does to the map (`after`) and asks of the world (`u`):
/// - the neighbours of the former current sector that are out of reach of the
///   camera are hidden, in neighbour order;
/// - a sector is created, visible, with a fresh seed and at most
///   `ASTEROIDS_MAX_PER_SECTOR` asteroids, at every position of the block
///   around the camera where none was known, in block order;
/// - every known sector keeps its position and seed, and is visible exactly
///   when it is near the camera, or was visible and not hidden;
/// - the sectors to fill with stars are the new ones and the known ones of the
///   block that were not visible, each once;
/// - the current sector becomes the one at the camera when that one was known
///   and near the former current sector, and stays otherwise.
pub open spec fn update_effect(before: SectorMap, after: SectorMap, ci: int, cj: int, u: MapUpdate) -> bool {
    let s0 = before.sectors@;
    let s = after.sectors@;
    let n0 = s0.len();
    let cur = before.current.0 as int;
    let missing = missing_positions(before, ci, cj, 9);
    &&& u.hidden@ == s0[cur].neighbours@.filter(far_from(s0, ci, cj))
    &&& s.len() == n0 + u.created@.len()
    &&& u.created@.len() == missing.len()
    &&& forall|x: int| 0 <= x < n0 ==> {
        let a = #[trigger] s[x];
        let b = s0[x];
        &&& a.i == b.i
        &&& a.j == b.j
        &&& a.seed == b.seed
        &&& a.visible == (b.near(ci, cj) || (b.visible && !u.hidden@.contains(x as usize)))
    }
    &&& forall|m: int| 0 <= m < u.created@.len() ==> {
        let c = #[trigger] u.created@[m];
        let a = s[n0 + m];
        &&& c.id == n0 + m
        &&& c.i == missing[m].0
        &&& c.j == missing[m].1
        &&& a.i == c.i
        &&& a.j == c.j
        &&& a.seed == c.seed
        &&& a.visible
        &&& c.asteroid_healths@.len() <= ASTEROIDS_MAX_PER_SECTOR
        &&& forall|h: int| 0 <= h < c.asteroid_healths@.len() ==>
            ASTEROID_HEALTH_MIN <= #[trigger] c.asteroid_healths@[h] <= ASTEROID_HEALTH_MAX
    }
    &&& forall|a: int, b: int| 0 <= a < b < u.stars@.len() ==> u.stars@[a] != u.stars@[b]
    &&& forall|k: usize| u.stars@.contains(k) <==> (
        (k < n0 && s0[k as int].near(ci, cj) && !s0[k as int].visible) || (n0 <= k < s.len()))
    &&& (before.known(ci, cj) && s0[cur].near(ci, cj)) ==> s[after.current.0 as int].at(ci, cj)
    &&& !(before.known(ci, cj) && s0[cur].near(ci, cj)) ==> after.current == before.current
    &&& forall|t: int| 0 <= t < 9 ==>
        after.known(#[trigger] block_position(ci, cj, t).0, block_position(ci, cj, t).1)
}

impl SectorMap {
    /// The map is well formed: the current sector exists, no two sectors share
    /// a position and all lie within bounds, and the neighbours of every sector
    /// are exactly the other sectors near it, by increasing id.
    pub open spec fn wf(self) -> bool {
        let s = self.sectors@;
        &&& self.current.0 < s.len()
        &&& positions_ok(s)
        &&& forall|k: int| 0 <= k < s.len() ==>
            (#[trigger] s[k]).neighbours@ == adjacent_ids(s, k, s.len())
    }

    /// The map at the start of a game: the nine sectors around `(0, 0)`, row
    /// by row, all visible, each with a fresh random seed; the current sector
    /// is `(0, 0)`. The world fills every one of them with stars.
    pub fn spawn() -> (map: SectorMap)
        ensures
            map.wf(),
            map.sectors@.len() == 9,
            forall|t: int| 0 <= t < 9 ==>
                (#[trigger] map.sectors@[t]).at(block_position(0, 0, t).0, block_position(0, 0, t).1),
            forall|t: int| 0 <= t < 9 ==> (#[trigger] map.sectors@[t]).visible,
            map.sectors@[map.current.0 as int].at(0, 0),
            map.shows_block(0, 0),
    {
        let mut sectors: Vec<Sector> = Vec::new();
        let mut t: usize = 0;
        while t < 9
            invariant
                t <= 9,
                sectors@.len() == t,
                forall|x: int| 0 <= x < t ==>
                    (#[trigger] sectors@[x]).at(block_position(0, 0, x).0, block_position(0, 0, x).1)
                    && sectors@[x].visible,
            decreases 9 - t,
        {
            let i = (t / 3) as isize - 1;
            let j = (t % 3) as isize - 1;
            let seed = random_u64();
            sectors.push(Sector { i, j, neighbours: Vec::new(), seed, visible: true });
            t = t + 1;
        }
        let ghost s0 = sectors@;
        let mut k: usize = 0;
        while k < 9
            invariant
                k <= 9,
                sectors@.len() == 9,
                s0.len() == 9,
                forall|x: int| 0 <= x < 9 ==>
                    (#[trigger] sectors@[x]).i == s0[x].i && sectors@[x].j == s0[x].j
                    && sectors@[x].visible == s0[x].visible && sectors@[x].seed == s0[x].seed,
                forall|x: int| 0 <= x < 9 ==>
                    (#[trigger] s0[x]).at(block_position(0, 0, x).0, block_position(0, 0, x).1)
                    && s0[x].visible,
                forall|x: int| 0 <= x < k ==>
                    (#[trigger] sectors@[x]).neighbours@ == adjacent_ids(s0, x, 9),
            decreases 9 - k,
        {
            let ids = adjacent_ids_of(&sectors, k);
            proof {
                lemma_adjacent_ids_agree(sectors@, s0, k as int, 9);
            }
            sectors[k].neighbours = ids;
            k = k + 1;
        }
        let map = SectorMap { sectors, current: CurrentSectorId(4) };
        proof {
            let s = map.sectors@;
            assert forall|x: int| 0 <= x < 9 implies (#[trigger] s[x]).neighbours@ == adjacent_ids(s, x, s.len()) by {
                lemma_adjacent_ids_agree(s, s0, x, 9);
            }
            assert forall|t: int| 0 <= t < 9 implies
                map.known(#[trigger] block_position(0, 0, t).0, block_position(0, 0, t).1) by {
                assert(s[t].at(block_position(0, 0, t).0, block_position(0, 0, t).1));
            }
        }
        map
    }

    /// The id of the sector at `(i, j)`, if the map knows one.
    pub fn find(&self, i: isize, j: isize) -> (r: Option<usize>)
        ensures
            match r {
                Some(k) => k < self.sectors@.len() && self.sectors@[k as int].at(i as int, j as int),
                None => !self.known(i as int, j as int),
            },
    {
        let n = self.sectors.len();
        let mut k: usize = 0;
        while k < n
            invariant
                n == self.sectors@.len(),
                k <= n,
                forall|x: int| 0 <= x < k ==> !(#[trigger] self.sectors@[x]).at(i as int, j as int),
            decreases n - k,
        {
            if self.sectors[k].i == i && self.sectors[k].j == j {
                return Some(k);
            }
            k = k + 1;
        }
        None
    }

    /// First step of an update, the camera being at `(ci, cj)`: walk the
    /// neighbours of the current sector, move the current sector to the one
    /// at the camera if there is one, and hide those now out of reach of the
    /// camera, returning them in neighbour order.
    fn leave_current(&mut self, ci: isize, cj: isize) -> (hidden: Vec<usize>)
        requires
            old(self).wf(),
            within_limit(ci as int),
            within_limit(cj as int),
        ensures
            final(self).wf(),
            final(self).sectors@.len() == old(self).sectors@.len(),
            forall|x: int| 0 <= x < final(self).sectors@.len() ==> {
                let a = #[trigger] final(self).sectors@[x];
                let b = old(self).sectors@[x];
                &&& a.i == b.i
                &&& a.j == b.j
                &&& a.seed == b.seed
                &&& a.neighbours@ == b.neighbours@
                &&& a.visible == (b.visible && !hidden@.contains(x as usize))
            },
            hidden@ == old(self).sectors@[old(self).current.0 as int].neighbours@.filter(
                far_from(old(self).sectors@, ci as int, cj as int),
            ),
            old(self).known(ci as int, cj as int) && old(self).sectors@[old(self).current.0 as int].near(
                ci as int,
                cj as int,
            ) ==> final(self).sectors@[final(self).current.0 as int].at(ci as int, cj as int),
            !(old(self).known(ci as int, cj as int) && old(self).sectors@[old(self).current.0 as int].near(
                ci as int,
                cj as int,
            )) ==> final(self).current.0 == old(self).current.0,
    {
        let ghost s0 = self.sectors@;
        let cur = self.current.0;
        let ghost nb = s0[cur as int].neighbours@;
        proof {
            lemma_adjacent_ids(s0, cur as int, s0.len());
        }
        let nb_len = self.sectors[cur].neighbours.len();
        let mut hidden: Vec<usize> = Vec::new();
        let mut new_current = cur;
        let mut a: usize = 0;
        while a < nb_len
            invariant
                a <= nb_len,
                nb_len == nb.len(),
                cur < s0.len(),
                nb == s0[cur as int].neighbours@,
                nb == adjacent_ids(s0, cur as int, s0.len()),
                positions_ok(s0),
                within_limit(ci as int),
                within_limit(cj as int),
                self.sectors@.len() == s0.len(),
                self.current.0 == cur,
                forall|b: int| 0 <= b < nb.len() ==> (#[trigger] nb[b]) < s0.len() && nb[b] != cur
                    && s0[nb[b] as int].near(s0[cur as int].i as int, s0[cur as int].j as int),
                forall|x: int| 0 <= x < s0.len() ==> {
                    let c = #[trigger] self.sectors@[x];
                    let b = s0[x];
                    &&& c.i == b.i
                    &&& c.j == b.j
                    &&& c.seed == b.seed
                    &&& c.neighbours@ == b.neighbours@
                    &&& c.visible == (b.visible && !hidden@.contains(x as usize))
                },
                hidden@ == nb.take(a as int).filter(far_from(s0, ci as int, cj as int)),
                new_current < s0.len(),
                new_current != cur ==> s0[new_current as int].at(ci as int, cj as int)
                    && s0[new_current as int].near(s0[cur as int].i as int, s0[cur as int].j as int),
                (exists|b: int| 0 <= b < a && (#[trigger] s0[nb[b] as int]).at(ci as int, cj as int))
                    ==> new_current != cur,
            decreases nb_len - a,
        {
            let id = self.sectors[cur].neighbours[a];
            let si = self.sectors[id].i;
            let sj = self.sectors[id].j;
            proof {
                assert(nb.take(a + 1) =~= nb.take(a as int).push(id));
                nb.take(a as int).lemma_filter_push(id, far_from(s0, ci as int, cj as int));
            }
            if si == ci && sj == cj {
                new_current = id;
            } else if !is_near(si, sj, ci, cj) {
                let ghost h0 = hidden@;
                let ghost v0 = self.sectors@;
                self.sectors[id].visible = false;
                hidden.push(id);
                proof {
                    assert forall|x: usize| hidden@.contains(x) <==> (h0.contains(x) || x == id) by {
                        if h0.contains(x) {
                            let w = choose|w: int| 0 <= w < h0.len() && h0[w] == x;
                            assert(hidden@[w] == x);
                        }
                        if x == id {
                            assert(hidden@[h0.len() as int] == x);
                        }
                    }
                    assert forall|x: int| 0 <= x < s0.len() implies (#[trigger] self.sectors@[x]).visible
                        == (s0[x].visible && !hidden@.contains(x as usize)) by {
                        if x != id {
                            assert(self.sectors@[x] == v0[x]);
                        }
                    }
                }
            }
            a = a + 1;
        }
        self.current = CurrentSectorId(new_current);
        proof {
            assert(nb.take(nb_len as int) =~= nb);
            if new_current != cur {
                assert(s0[new_current as int].at(ci as int, cj as int));
            }
            let s1 = self.sectors@;
            assert forall|k: int| 0 <= k < s1.len() implies (#[trigger] s1[k]).neighbours@ == adjacent_ids(s1, k, s1.len()) by {
                lemma_adjacent_ids_agree(s1, s0, k, s0.len());
            }
            if self.known(ci as int, cj as int) && s0[cur as int].near(ci as int, cj as int) {
                let k = choose|k: int| 0 <= k < s0.len() && (#[trigger] s0[k]).at(ci as int, cj as int);
                assert(s0[k].at(ci as int, cj as int));
                if k == cur {
                } else {
                    assert(nb.contains(k as usize));
                    let b = choose|b: int| 0 <= b < nb.len() && nb[b] == k as usize;
                    assert(s0[nb[b] as int].at(ci as int, cj as int));
                }
            }
        }
        hidden
    }

    /// Second step of an update, the camera being at `(ci, cj)`: make every
    /// known sector of the block around the camera visible, and create, in
    /// block order, a visible sector with a fresh seed and its asteroids at
    /// every position of the block where none is known. Returns the sectors to
    /// fill with stars and the sectors created.
    fn fill_block(&mut self, ci: isize, cj: isize) -> (r: (Vec<usize>, Vec<NewSector>))
        requires
            old(self).wf(),
            within_limit(ci as int),
            within_limit(cj as int),
        ensures
            ({
                let (stars, created) = r;
                let s0 = old(self).sectors@;
                let s = final(self).sectors@;
                let n0 = s0.len();
                let missing = missing_positions(*old(self), ci as int, cj as int, 9);
                &&& final(self).current == old(self).current
                &&& positions_ok(s)
                &&& s.len() == n0 + created@.len()
                &&& created@.len() == missing.len()
                &&& forall|x: int| 0 <= x < n0 ==> {
                    let a = #[trigger] s[x];
                    let b = s0[x];
                    &&& a.i == b.i
                    &&& a.j == b.j
                    &&& a.seed == b.seed
                    &&& a.neighbours@ == b.neighbours@
                    &&& a.visible == (b.visible || b.near(ci as int, cj as int))
                }
                &&& forall|m: int| 0 <= m < created@.len() ==> {
                    let c = #[trigger] created@[m];
                    let a = s[n0 + m];
                    &&& c.id == n0 + m
                    &&& c.i == missing[m].0
                    &&& c.j == missing[m].1
                    &&& a.i == c.i
                    &&& a.j == c.j
                    &&& a.seed == c.seed
                    &&& a.visible
                    &&& a.neighbours@.len() == 0
                    &&& c.asteroid_healths@.len() <= ASTEROIDS_MAX_PER_SECTOR
                    &&& forall|h: int| 0 <= h < c.asteroid_healths@.len() ==>
                        ASTEROID_HEALTH_MIN <= #[trigger] c.asteroid_healths@[h] <= ASTEROID_HEALTH_MAX
                }
                &&& forall|a: int, b: int| 0 <= a < b < stars@.len() ==> stars@[a] != stars@[b]
                &&& forall|k: usize| stars@.contains(k) <==> (
                    (k < n0 && s0[k as int].near(ci as int, cj as int) && !s0[k as int].visible)
                    || (n0 <= k < s.len()))
                &&& forall|t: int| 0 <= t < 9 ==>
                    final(self).known(#[trigger] block_position(ci as int, cj as int, t).0,
                        block_position(ci as int, cj as int, t).1)
            }),
    {
        let ghost s0 = self.sectors@;
        let ghost m0 = *self;
        let n0 = self.sectors.len();
        let mut stars: Vec<usize> = Vec::new();
        let mut created: Vec<NewSector> = Vec::new();
        let mut t: usize = 0;
        while t < 9
            invariant
                t <= 9,
                m0 == *old(self),
                s0 == m0.sectors@,
                m0.wf(),
                n0 == s0.len(),
                within_limit(ci as int),
                within_limit(cj as int),
                self.current == m0.current,
                positions_ok(self.sectors@),
                self.sectors@.len() == n0 + created@.len(),
                created@.len() == missing_positions(m0, ci as int, cj as int, t as nat).len(),
                forall|x: int| 0 <= x < n0 ==> {
                    let a = #[trigger] self.sectors@[x];
                    let b = s0[x];
                    &&& a.i == b.i
                    &&& a.j == b.j
                    &&& a.seed == b.seed
                    &&& a.neighbours@ == b.neighbours@
                    &&& a.visible == (b.visible || (b.near(ci as int, cj as int)
                        && block_index(b.i as int, b.j as int, ci as int, cj as int) < t))
                },
                forall|m: int| 0 <= m < created@.len() ==> {
                    let c = #[trigger] created@[m];
                    let a = self.sectors@[n0 + m];
                    &&& c.id == n0 + m
                    &&& c.i == missing_positions(m0, ci as int, cj as int, t as nat)[m].0
                    &&& c.j == missing_positions(m0, ci as int, cj as int, t as nat)[m].1
                    &&& a.i == c.i
                    &&& a.j == c.j
                    &&& a.seed == c.seed
                    &&& a.visible
                    &&& a.neighbours@.len() == 0
                    &&& near(c.i as int, c.j as int, ci as int, cj as int)
                    &&& block_index(c.i as int, c.j as int, ci as int, cj as int) < t
                    &&& c.asteroid_healths@.len() <= ASTEROIDS_MAX_PER_SECTOR
                    &&& forall|h: int| 0 <= h < c.asteroid_healths@.len() ==>
                        ASTEROID_HEALTH_MIN <= #[trigger] c.asteroid_healths@[h] <= ASTEROID_HEALTH_MAX
                },
                forall|a: int| 0 <= a < stars@.len() ==> (#[trigger] stars@[a]) < self.sectors@.len()
                    && (stars@[a] < n0 ==> block_index(s0[stars@[a] as int].i as int,
                        s0[stars@[a] as int].j as int, ci as int, cj as int) < t),
                forall|a: int, b: int| 0 <= a < b < stars@.len() ==> stars@[a] != stars@[b],
                forall|k: usize| stars@.contains(k) <==> (
                    (k < n0 && s0[k as int].near(ci as int, cj as int) && !s0[k as int].visible
                        && block_index(s0[k as int].i as int, s0[k as int].j as int, ci as int, cj as int) < t)
                    || (n0 <= k < self.sectors@.len())),
                forall|u: int| 0 <= u < t ==>
                    self.known(#[trigger] block_position(ci as int, cj as int, u).0,
                        block_position(ci as int, cj as int, u).1),
            decreases 9 - t,
        {
            let ti = ci - 1 + (t / 3) as isize;
            let tj = cj - 1 + (t % 3) as isize;
            let ghost p = block_position(ci as int, cj as int, t as int);
            let ghost st0 = stars@;
            let ghost sec0 = self.sectors@;
            assert(ti == p.0 && tj == p.1);
            assert(block_index(p.0, p.1, ci as int, cj as int) == t);
            match self.find(ti, tj) {
                Some(k) => {
                    if k >= n0 {
                        let ghost m = k - n0;
                        assert(created@[m as int].i == ti);
                        assert(false);
                    }
                    assert(m0.known(p.0, p.1)) by {
                        assert(s0[k as int].at(p.0, p.1));
                    }
                    if !self.sectors[k].visible {
                        self.sectors[k].visible = true;
                        stars.push(k);
                    }
                    proof {
                        assert forall|u: int| 0 <= u < t + 1 implies
                            self.known(#[trigger] block_position(ci as int, cj as int, u).0,
                                block_position(ci as int, cj as int, u).1) by {
                            if u == t {
                                assert(self.sectors@[k as int].at(p.0, p.1));
                            } else {
                                let q = block_position(ci as int, cj as int, u);
                                let x = choose|x: int| 0 <= x < sec0.len() && (#[trigger] sec0[x]).at(q.0, q.1);
                                assert(self.sectors@[x].at(q.0, q.1));
                            }
                        }
                        assert(missing_positions(m0, ci as int, cj as int, (t + 1) as nat)
                            == missing_positions(m0, ci as int, cj as int, t as nat));
                        assert forall|x: int| 0 <= x < n0 implies {
                            let a = #[trigger] self.sectors@[x];
                            let b = s0[x];
                            &&& a.i == b.i
                            &&& a.j == b.j
                            &&& a.seed == b.seed
                            &&& a.neighbours@ == b.neighbours@
                            &&& a.visible == (b.visible || (b.near(ci as int, cj as int)
                                && block_index(b.i as int, b.j as int, ci as int, cj as int) < t + 1))
                        } by {
                            if x != k {
                                assert(self.sectors@[x] == sec0[x]);
                                if s0[x].near(ci as int, cj as int) && block_index(s0[x].i as int, s0[x].j as int, ci as int, cj as int) == t {
                                    assert(s0[x].at(p.0, p.1));
                                }
                            }
                        }
                        assert forall|k2: usize| stars@.contains(k2) <==> (
                            (k2 < n0 && s0[k2 as int].near(ci as int, cj as int) && !s0[k2 as int].visible
                                && block_index(s0[k2 as int].i as int, s0[k2 as int].j as int, ci as int, cj as int) < t + 1)
                            || (n0 <= k2 < self.sectors@.len())) by {
                            if k2 < n0 && s0[k2 as int].near(ci as int, cj as int)
                                && block_index(s0[k2 as int].i as int, s0[k2 as int].j as int, ci as int, cj as int) == t {
                                assert(s0[k2 as int].at(p.0, p.1));
                            }
                            if stars@.contains(k2) && !st0.contains(k2) {
                                assert(stars@[st0.len() as int] == k2 || exists|w: int| 0 <= w < st0.len() && st0[w] == k2);
                            }
                            if st0.contains(k2) {
                                let w = choose|w: int| 0 <= w < st0.len() && st0[w] == k2;
                                assert(stars@[w] == k2);
                            }
                            if stars@.len() > st0.len() && k2 == k {
                                assert(stars@[st0.len() as int] == k2);
                            }
                        }
                    }
                },
                None => {
                    let id = self.sectors.len();
                    let seed = random_u64();
                    let asteroid_healths = new_asteroid_healths();
                    assert(!m0.known(p.0, p.1)) by {
                        if m0.known(p.0, p.1) {
                            let x = choose|x: int| 0 <= x < n0 && (#[trigger] s0[x]).at(p.0, p.1);
                            assert(self.sectors@[x].at(p.0, p.1));
                        }
                    }
                    self.sectors.push(Sector { i: ti, j: tj, neighbours: Vec::new(), seed, visible: true });
                    proof {
                        let s1 = self.sectors@;
                        assert(s1.len() == self.sectors.len());
                        assert forall|k: int, l: int|
                            0 <= k < s1.len() && 0 <= l < s1.len() && k != l implies !(#[trigger] s1[k]).at(
                                (#[trigger] s1[l]).i as int, s1[l].j as int) by {
                            if k == id {
                                assert(!sec0[l].at(p.0, p.1));
                            } else if l == id {
                                assert(!sec0[k].at(p.0, p.1));
                            } else {
                                assert(s1[k] == sec0[k] && s1[l] == sec0[l]);
                            }
                        }
                        assert forall|k: int| 0 <= k < s1.len() implies
                            in_map_bounds(#[trigger] s1[k].i as int) && in_map_bounds(s1[k].j as int) by {
                            if k < id {
                                assert(s1[k] == sec0[k]);
                            }
                        }
                    }
                    stars.push(id);
                    created.push(NewSector { id, i: ti, j: tj, seed, asteroid_healths });
                    proof {
                        let mp = missing_positions(m0, ci as int, cj as int, t as nat);
                        assert(missing_positions(m0, ci as int, cj as int, (t + 1) as nat) == mp.push(p));
                        assert forall|x: int| 0 <= x < n0 implies {
                            let a = #[trigger] self.sectors@[x];
                            let b = s0[x];
                            &&& a.i == b.i
                            &&& a.j == b.j
                            &&& a.seed == b.seed
                            &&& a.neighbours@ == b.neighbours@
                            &&& a.visible == (b.visible || (b.near(ci as int, cj as int)
                                && block_index(b.i as int, b.j as int, ci as int, cj as int) < t + 1))
                        } by {
                            assert(self.sectors@[x] == sec0[x]);
                            if s0[x].near(ci as int, cj as int) && block_index(s0[x].i as int, s0[x].j as int, ci as int, cj as int) == t {
                                assert(s0[x].at(p.0, p.1));
                            }
                        }
                        assert forall|k2: usize| stars@.contains(k2) <==> (
                            (k2 < n0 && s0[k2 as int].near(ci as int, cj as int) && !s0[k2 as int].visible
                                && block_index(s0[k2 as int].i as int, s0[k2 as int].j as int, ci as int, cj as int) < t + 1)
                            || (n0 <= k2 < self.sectors@.len())) by {
                            if k2 < n0 && s0[k2 as int].near(ci as int, cj as int)
                                && block_index(s0[k2 as int].i as int, s0[k2 as int].j as int, ci as int, cj as int) == t {
                                assert(s0[k2 as int].at(p.0, p.1));
                                assert(sec0[k2 as int].at(p.0, p.1));
                            }
                            if st0.contains(k2) {
                                let w = choose|w: int| 0 <= w < st0.len() && st0[w] == k2;
                                assert(stars@[w] == k2);
                            }
                            if k2 == id {
                                assert(stars@[st0.len() as int] == k2);
                            }
                            if stars@.contains(k2) && k2 != id {
                                let w = choose|w: int| 0 <= w < stars@.len() && stars@[w] == k2;
                                assert(st0[w] == k2);
                            }
                        }
                        assert forall|u: int| 0 <= u < t + 1 implies
                            self.known(#[trigger] block_position(ci as int, cj as int, u).0,
                                block_position(ci as int, cj as int, u).1) by {
                            if u == t {
                                assert(self.sectors@[id as int].at(p.0, p.1));
                            } else {
                                let q = block_position(ci as int, cj as int, u);
                                let x = choose|x: int| 0 <= x < sec0.len() && (#[trigger] sec0[x]).at(q.0, q.1);
                                assert(self.sectors@[x].at(q.0, q.1));
                            }
                        }
                    }
                },
            }
            t = t + 1;
        }
        proof {
            assert forall|x: int| 0 <= x < n0 && (#[trigger] s0[x]).near(ci as int, cj as int) implies
                block_index(s0[x].i as int, s0[x].j as int, ci as int, cj as int) < 9 by {
            }
        }
        (stars, created)
    }

    /// Last step of an update: sectors `[0, n0)` had their neighbours among
    /// themselves; append to them the new sectors near them, and give every
    /// new sector all the sectors near it.
    fn link_new_sectors(&mut self, n0: usize)
        requires
            positions_ok(old(self).sectors@),
            n0 <= old(self).sectors@.len(),
            old(self).current.0 < old(self).sectors@.len(),
            forall|k: int| 0 <= k < n0 ==>
                (#[trigger] old(self).sectors@[k]).neighbours@ == adjacent_ids(old(self).sectors@, k, n0 as nat),
        ensures
            final(self).wf(),
            final(self).current == old(self).current,
            final(self).sectors@.len() == old(self).sectors@.len(),
            forall|x: int| 0 <= x < final(self).sectors@.len() ==> {
                let a = #[trigger] final(self).sectors@[x];
                let b = old(self).sectors@[x];
                &&& a.i == b.i
                &&& a.j == b.j
                &&& a.seed == b.seed
                &&& a.visible == b.visible
            },
    {
        let ghost s0 = self.sectors@;
        let n = self.sectors.len();
        let mut k: usize = 0;
        while k < n0
            invariant
                s0 == old(self).sectors@,
                n == s0.len(),
                positions_ok(s0),
                n0 <= n,
                k <= n0,
                self.current == old(self).current,
                self.sectors@.len() == n,
                forall|x: int| 0 <= x < n ==> {
                    let a = #[trigger] self.sectors@[x];
                    let b = s0[x];
                    &&& a.i == b.i
                    &&& a.j == b.j
                    &&& a.seed == b.seed
                    &&& a.visible == b.visible
                },
                forall|x: int| 0 <= x < k ==>
                    (#[trigger] self.sectors@[x]).neighbours@ == adjacent_ids(s0, x, n as nat),
                forall|x: int| k <= x < n0 ==>
                    (#[trigger] self.sectors@[x]).neighbours@ == adjacent_ids(s0, x, n0 as nat),
            decreases n0 - k,
        {
            let ki = self.sectors[k].i;
            let kj = self.sectors[k].j;
            let mut m: usize = n0;
            while m < n
                invariant
                    s0 == old(self).sectors@,
                    n == s0.len(),
                    positions_ok(s0),
                    n0 <= m <= n,
                    k < n0,
                    ki == s0[k as int].i,
                    kj == s0[k as int].j,
                    self.current == old(self).current,
                    self.sectors@.len() == n,
                    forall|x: int| 0 <= x < n ==> {
                        let a = #[trigger] self.sectors@[x];
                        let b = s0[x];
                        &&& a.i == b.i
                        &&& a.j == b.j
                        &&& a.seed == b.seed
                        &&& a.visible == b.visible
                    },
                    forall|x: int| 0 <= x < k ==>
                        (#[trigger] self.sectors@[x]).neighbours@ == adjacent_ids(s0, x, n as nat),
                    forall|x: int| k < x < n0 ==>
                        (#[trigger] self.sectors@[x]).neighbours@ == adjacent_ids(s0, x, n0 as nat),
                    self.sectors@[k as int].neighbours@ == adjacent_ids(s0, k as int, m as nat),
                decreases n - m,
            {
                let ghost v0 = self.sectors@;
                if is_near(self.sectors[m].i, self.sectors[m].j, ki, kj) {
                    self.sectors[k].neighbours.push(m);
                }
                proof {
                    assert forall|x: int| 0 <= x < n && x != k implies #[trigger] self.sectors@[x] == v0[x] by {}
                }
                m = m + 1;
            }
            k = k + 1;
        }
        let mut m: usize = n0;
        while m < n
            invariant
                s0 == old(self).sectors@,
                n == s0.len(),
                positions_ok(s0),
                n0 <= m <= n,
                self.current == old(self).current,
                self.sectors@.len() == n,
                forall|x: int| 0 <= x < n ==> {
                    let a = #[trigger] self.sectors@[x];
                    let b = s0[x];
                    &&& a.i == b.i
                    &&& a.j == b.j
                    &&& a.seed == b.seed
                    &&& a.visible == b.visible
                },
                forall|x: int| 0 <= x < m ==>
                    (#[trigger] self.sectors@[x]).neighbours@ == adjacent_ids(s0, x, n as nat),
            decreases n - m,
        {
            let ids = adjacent_ids_of(&self.sectors, m);
            proof {
                lemma_adjacent_ids_agree(self.sectors@, s0, m as int, n as nat);
            }
            let ghost v0 = self.sectors@;
            self.sectors[m].neighbours = ids;
            proof {
                assert forall|x: int| 0 <= x < n && x != m implies #[trigger] self.sectors@[x] == v0[x] by {}
            }
            m = m + 1;
        }
        proof {
            let s = self.sectors@;
            assert forall|x: int| 0 <= x < s.len() implies (#[trigger] s[x]).neighbours@ == adjacent_ids(s, x, s.len()) by {
                lemma_adjacent_ids_agree(s, s0, x, n as nat);
            }
            assert forall|k2: int, l: int|
                0 <= k2 < s.len() && 0 <= l < s.len() && k2 != l implies !(#[trigger] s[k2]).at(
                    (#[trigger] s[l]).i as int, s[l].j as int) by {
                assert(!s0[k2].at(s0[l].i as int, s0[l].j as int));
            }
        }
    }

    /// Follows the camera, now in sector `(camera_i, camera_j)` of the grid.
    /// Nothing happens while the camera stays in the current sector; otherwise
    /// the map changes as `update_effect` says. When the nine sectors around
    /// the current one were shown and the camera moves to one of them, the
    /// nine sectors around the camera are shown afterwards.
    pub fn update(&mut self, camera_i: isize, camera_j: isize) -> (u: MapUpdate)
        requires
            old(self).wf(),
            within_limit(camera_i as int),
            within_limit(camera_j as int),
        ensures
            final(self).wf(),
            old(self).sectors@[old(self).current.0 as int].at(camera_i as int, camera_j as int) ==> {
                &&& *final(self) == *old(self)
                &&& u.hidden@.len() == 0
                &&& u.stars@.len() == 0
                &&& u.created@.len() == 0
            },
            !old(self).sectors@[old(self).current.0 as int].at(camera_i as int, camera_j as int)
                ==> update_effect(*old(self), *final(self), camera_i as int, camera_j as int, u),
            ({
                let c = old(self).sectors@[old(self).current.0 as int];
                old(self).shows_block(c.i as int, c.j as int) && c.near(camera_i as int, camera_j as int)
                    ==> final(self).shows_block(camera_i as int, camera_j as int)
            }),
    {
        let cur = self.current.0;
        if self.sectors[cur].i == camera_i && self.sectors[cur].j == camera_j {
            return MapUpdate { hidden: Vec::new(), stars: Vec::new(), created: Vec::new() };
        }
        let ghost m0 = *self;
        let n0 = self.sectors.len();
        let hidden = self.leave_current(camera_i, camera_j);
        let ghost m1 = *self;
        let (stars, created) = self.fill_block(camera_i, camera_j);
        let ghost m2 = *self;
        proof {
            assert forall|k: int| 0 <= k < n0 implies
                (#[trigger] m2.sectors@[k]).neighbours@ == adjacent_ids(m2.sectors@, k, n0 as nat) by {
                lemma_adjacent_ids_agree(m2.sectors@, m1.sectors@, k, n0 as nat);
            }
        }
        self.link_new_sectors(n0);
        let u = MapUpdate { hidden, stars, created };
        proof {
            broadcast use vstd::seq_lib::group_filter_ensures;
            let ci = camera_i as int;
            let cj = camera_j as int;
            let s0 = m0.sectors@;
            let s1 = m1.sectors@;
            let s = self.sectors@;
            lemma_missing_positions(m0, ci, cj, 9);
            assert(missing_positions(m1, ci, cj, 9) == missing_positions(m0, ci, cj, 9)) by {
                assert forall|p0: int, p1: int| m1.known(p0, p1) <==> m0.known(p0, p1) by {
                    if m1.known(p0, p1) {
                        let x = choose|x: int| 0 <= x < s1.len() && (#[trigger] s1[x]).at(p0, p1);
                        assert(s0[x].at(p0, p1));
                    }
                    if m0.known(p0, p1) {
                        let x = choose|x: int| 0 <= x < s0.len() && (#[trigger] s0[x]).at(p0, p1);
                        assert(s1[x].at(p0, p1));
                    }
                }
                lemma_missing_positions_same(m1, m0, ci, cj, 9);
            }
            assert forall|x: int| 0 <= x < n0 && u.hidden@.contains(x as usize) implies
                !(#[trigger] s0[x]).near(ci, cj) by {
                let w = choose|w: int| 0 <= w < u.hidden@.len() && u.hidden@[w] == x as usize;
                assert(far_from(s0, ci, cj)(u.hidden@[w]));
            }
            let m2s = m2.sectors@;
            assert forall|t: int| 0 <= t < 9 implies
                self.known(#[trigger] block_position(ci, cj, t).0, block_position(ci, cj, t).1) by {
                let q = block_position(ci, cj, t);
                assert(m2.known(q.0, q.1));
                let x = choose|x: int| 0 <= x < m2s.len() && (#[trigger] m2s[x]).at(q.0, q.1);
                assert(s[x].at(q.0, q.1));
            }
            assert(u.hidden@ == s0[cur as int].neighbours@.filter(far_from(s0, ci, cj)));
            assert(s.len() == n0 + u.created@.len());
            assert(u.created@.len() == missing_positions(m0, ci, cj, 9).len());
            assert(forall|x: int| 0 <= x < n0 ==> {
                let a = #[trigger] s[x];
                let b = s0[x];
                &&& a.i == b.i
                &&& a.j == b.j
                &&& a.seed == b.seed
                &&& a.visible == (b.near(ci, cj) || (b.visible && !u.hidden@.contains(x as usize)))
            });
            assert(forall|a: int, b: int| 0 <= a < b < u.stars@.len() ==> u.stars@[a] != u.stars@[b]);
            assert((m0.known(ci, cj) && s0[cur as int].near(ci, cj)) ==> s[self.current.0 as int].at(ci, cj));
            assert(!(m0.known(ci, cj) && s0[cur as int].near(ci, cj)) ==> self.current == m0.current);
            assert forall|k: usize| u.stars@.contains(k) <==> (
                (k < n0 && s0[k as int].near(ci, cj) && !s0[k as int].visible) || (n0 <= k < s.len())) by {
                if k < n0 {
                    assert(s1[k as int].near(ci, cj) == s0[k as int].near(ci, cj));
                    if s0[k as int].near(ci, cj) {
                        assert(!u.hidden@.contains(k));
                    }
                }
            }
            let c = s0[cur as int];
            if m0.shows_block(c.i as int, c.j as int) && c.near(ci, cj) {
                assert forall|x: int| 0 <= x < s.len() implies
                    ((#[trigger] s[x]).visible <==> s[x].near(ci, cj)) by {
                    if x < n0 {
                        if s0[x].visible && !s0[x].near(ci, cj) {
                            assert(x != cur);
                            assert(s0[x].near(c.i as int, c.j as int));
                            lemma_adjacent_ids(s0, cur as int, s0.len());
                            assert(s0[cur as int].neighbours@.contains(x as usize));
                            let w = choose|w: int| 0 <= w < s0[cur as int].neighbours@.len()
                                && s0[cur as int].neighbours@[w] == x as usize;
                            s0[cur as int].neighbours@.lemma_filter_contains(far_from(s0, ci, cj), w);
                        }
                    } else {
                        let m = x - n0;
                        assert(u.created@[m].i == s[x].i);
                        let p = missing_positions(m0, ci, cj, 9)[m];
                        assert(near(p.0, p.1, ci, cj));
                    }
                }
            }
        }
        u
    }

    /// The ids of the visible sectors.
    pub open spec fn visible_sectors(self) -> Set<int> {
        Set::new(|k: int| 0 <= k < self.sectors@.len() && self.sectors@[k].visible)
    }

    /// When a well-formed map shows the block around a position, exactly
    /// nine sectors are visible, and so `9 * STARS_PER_SECTOR` stars.
    pub proof fn law_block_shows_nine_sectors(self, i: int, j: int)
        requires
            self.wf(),
            self.shows_block(i, j),
        ensures
            self.visible_sectors().finite(),
            self.visible_sectors().len() == 9,
    {
        let s = self.sectors@;
        let x = self.visible_sectors();
        let f = |k: int| block_index(s[k].i as int, s[k].j as int, i, j);
        let y = vstd::set_lib::set_int_range(0, 9);
        vstd::set_lib::lemma_int_range(0, s.len() as int);
        assert(x.subset_of(vstd::set_lib::set_int_range(0, s.len() as int)));
        vstd::set_lib::lemma_int_range(0, 9);
        assert(x.finite()) by {
            vstd::set_lib::lemma_set_subset_finite(vstd::set_lib::set_int_range(0, s.len() as int), x);
        }
        assert forall|k1: int, k2: int| x.contains(k1) && x.contains(k2) && #[trigger] f(k1) == #[trigger] f(k2)
            implies k1 == k2 by {
            if k1 != k2 {
                assert(!s[k1].at(s[k2].i as int, s[k2].j as int));
            }
        }
        assert(vstd::relations::injective_on(f, x));
        assert forall|t: int| #[trigger] x.map(f).contains(t) <==> y.contains(t) by {
            if y.contains(t) {
                let p = block_position(i, j, t);
                assert(self.known(p.0, p.1));
                let k = choose|k: int| 0 <= k < s.len() && (#[trigger] s[k]).at(p.0, p.1);
                assert(x.contains(k));
                assert(f(k) == t);
            }
            if x.map(f).contains(t) {
                let k = choose|k: int| x.contains(k) && f(k) == t;
                assert(s[k].near(i, j));
            }
        }
        assert(x.map(f) =~= y);
        vstd::set_lib::lemma_map_size(x, y, f);
    }

    /// A sector is known at `(i, j)`.
    pub open spec fn known(self, i: int, j: int) -> bool {
        exists|k: int| 0 <= k < self.sectors@.len() && (#[trigger] self.sectors@[k]).at(i, j)
    }

    /// The nine sectors around `(i, j)` are known, and they are the only
    /// visible ones.
    pub open spec fn shows_block(self, i: int, j: int) -> bool {
        &&& forall|t: int| 0 <= t < 9 ==>
            self.known(#[trigger] block_position(i, j, t).0, block_position(i, j, t).1)
        &&& forall|k: int| 0 <= k < self.sectors@.len() ==>
            ((#[trigger] self.sectors@[k]).visible <==> self.sectors@[k].near(i, j))
    }
}

} // verus!
