use vstd::prelude::*;
use vstd::std_specs::cmp::PartialEqSpec;

verus! {

/// A collision between two entities, named by their ids. The order of the two
/// does not matter: `Collision(a, b) == Collision(b, a)`.
#[derive(Clone, Copy, Debug, Eq)]
pub struct Collision(pub u64, pub u64);

/// Two collisions are the same when they involve the same two entities, in
/// either order.
pub open spec fn same_collision(a: Collision, b: Collision) -> bool {
    (a.0 == b.0 && a.1 == b.1) || (a.0 == b.1 && a.1 == b.0)
}

impl PartialEq for Collision {
    fn eq(&self, other: &Self) -> (r: bool) {
        (self.0 == other.0 && self.1 == other.1) || (self.0 == other.1 && self.1 == other.0)
    }
}

impl vstd::std_specs::cmp::PartialEqSpecImpl for Collision {
    open spec fn obeys_eq_spec() -> bool {
        true
    }

    open spec fn eq_spec(&self, other: &Collision) -> bool {
        same_collision(*self, *other)
    }
}

/// The collisions of the previous frame (`old`) and those seen so far in the
/// current one (`new`).
#[derive(Debug)]
pub struct Cache {
    pub old: Vec<Collision>,
    pub new: Vec<Collision>,
}

impl Default for Cache {
    fn default() -> (c: Cache)
        ensures
            c.old@.len() == 0,
            c.new@.len() == 0,
    {
        Cache { old: Vec::new(), new: Vec::new() }
    }
}

impl Cache {
    /// The previous frame saw collision `c`, in either order.
    pub open spec fn remembers(self, c: Collision) -> bool {
        exists|k: int| 0 <= k < self.old@.len() && same_collision(#[trigger] self.old@[k], c)
    }

    /// The previous frame saw a collision involving entity `e`.
    pub open spec fn remembers_entity(self, e: u64) -> bool {
        exists|k: int| 0 <= k < self.old@.len() && ((#[trigger] self.old@[k]).0 == e || self.old@[k].1 == e)
    }

    /// Records a collision of the current frame.
    pub fn add(&mut self, collision: Collision)
        ensures
            final(self).old@ == old(self).old@,
            final(self).new@ == old(self).new@.push(collision),
    {
        self.new.push(collision);
    }

    /// Whether the previous frame saw `collision`, in either order.
    pub fn contains(&self, collision: Collision) -> (b: bool)
        ensures
            b == self.remembers(collision),
    {
        let n = self.old.len();
        let mut k: usize = 0;
        while k < n
            invariant
                n == self.old@.len(),
                k <= n,
                forall|x: int| 0 <= x < k ==> !same_collision(#[trigger] self.old@[x], collision),
            decreases n - k,
        {
            if self.old[k].eq(&collision) {
                return true;
            }
            k = k + 1;
        }
        false
    }

    /// Whether the previous frame saw a collision involving entity `e`.
    pub fn contains_entity(&self, e: u64) -> (b: bool)
        ensures
            b == self.remembers_entity(e),
    {
        let n = self.old.len();
        let mut k: usize = 0;
        while k < n
            invariant
                n == self.old@.len(),
                k <= n,
                forall|x: int| 0 <= x < k ==> (#[trigger] self.old@[x]).0 != e && self.old@[x].1 != e,
            decreases n - k,
        {
            let Collision(a, b) = self.old[k];
            if e == a || e == b {
                return true;
            }
            k = k + 1;
        }
        false
    }

    /// Ends a frame: its collisions become the previous frame's, and the
    /// current frame starts with none.
    pub fn update(&mut self)
        ensures
            final(self).old@ == old(self).new@,
            final(self).new@.len() == 0,
    {
        std::mem::swap(&mut self.old, &mut self.new);
        self.new.clear();
    }
}

/// The cache does not care in which order a collision names its entities.
pub proof fn law_remembers_either_order(cache: Cache, a: u64, b: u64)
    ensures
        cache.remembers(Collision(a, b)) == cache.remembers(Collision(b, a)),
{
    if cache.remembers(Collision(a, b)) {
        let k = choose|k: int| 0 <= k < cache.old@.len() && same_collision(#[trigger] cache.old@[k], Collision(a, b));
        assert(same_collision(cache.old@[k], Collision(b, a)));
    }
    if cache.remembers(Collision(b, a)) {
        let k = choose|k: int| 0 <= k < cache.old@.len() && same_collision(#[trigger] cache.old@[k], Collision(b, a));
        assert(same_collision(cache.old@[k], Collision(a, b)));
    }
}

/// Once a frame ends, the cache remembers exactly the collisions added during
/// that frame, in either order, and the entities they involve.
pub proof fn law_update_remembers_the_frame(before: Cache, after: Cache, c: Collision, e: u64)
    requires
        after.old@ == before.new@,
    ensures
        after.remembers(c) <==> exists|k: int| 0 <= k < before.new@.len() && same_collision(#[trigger] before.new@[k], c),
        after.remembers_entity(e) <==> exists|k: int| 0 <= k < before.new@.len()
            && ((#[trigger] before.new@[k]).0 == e || before.new@[k].1 == e),
{
}

/// A collision added during a frame is remembered, in either order, once the
/// frame ends, and so are both of its entities.
pub proof fn law_added_then_remembered(c0: Cache, c1: Cache, c2: Cache, c: Collision)
    requires
        c1.new@ == c0.new@.push(c),
        c2.old@ == c1.new@,
    ensures
        c2.remembers(c),
        c2.remembers(Collision(c.1, c.0)),
        c2.remembers_entity(c.0),
        c2.remembers_entity(c.1),
{
    let k = c0.new@.len() as int;
    assert(c2.old@[k] == c);
    assert(same_collision(c2.old@[k], c));
    assert(same_collision(c2.old@[k], Collision(c.1, c.0)));
}

/// Two collisions are equal exactly when they involve the same entities:
/// `Collision(a, b) == Collision(x, y)` holds when `{a, b}` and `{x, y}` are the
/// same set, and only then.
pub proof fn law_equal_collisions_name_the_same_entities(c: Collision, d: Collision)
    ensures
        c.eq_spec(&d) <==> set![c.0, c.1] == set![d.0, d.1],
{
    let sc = set![c.0, c.1];
    let sd = set![d.0, d.1];
    if sc =~= sd {
        assert(sd.contains(c.0) && sd.contains(c.1));
        assert(sc.contains(d.0) && sc.contains(d.1));
    }
    if c.eq_spec(&d) {
        assert(sc =~= sd);
    }
}

/// The cache knows a collision exactly when the previous frame saw the same
/// two entities collide, whichever came first.
pub proof fn law_remembered_collisions_name_the_same_entities(cache: Cache, c: Collision)
    ensures
        cache.remembers(c) <==> exists|k: int|
            0 <= k < cache.old@.len() && set![(#[trigger] cache.old@[k]).0, cache.old@[k].1] == set![c.0, c.1],
{
    if cache.remembers(c) {
        let k = choose|k: int| 0 <= k < cache.old@.len() && same_collision(#[trigger] cache.old@[k], c);
        law_equal_collisions_name_the_same_entities(cache.old@[k], c);
    }
    if exists|k: int| 0 <= k < cache.old@.len() && set![(#[trigger] cache.old@[k]).0, cache.old@[k].1] == set![c.0, c.1] {
        let k = choose|k: int| 0 <= k < cache.old@.len() && set![(#[trigger] cache.old@[k]).0, cache.old@[k].1] == set![c.0, c.1];
        law_equal_collisions_name_the_same_entities(cache.old@[k], c);
    }
}

} // verus!
