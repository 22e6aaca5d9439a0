//! Travelling along a route of destinations.
use vstd::prelude::*;

verus! {

/// Reports that an entity reached the next destination of its route.
pub struct Arrived;

/// A place to travel to, with a speed of its own where it has one. Positions (`P`) and
/// speeds (`S`) are carried, not read.
pub struct Destination<P, S> {
    pub pos: P,
    pub custom_velocity: Option<S>,
}

impl<P, S> Destination<P, S> {
    /// A destination at `pos`, reached at the travelling entity's own speed.
    pub fn from_pos(pos: P) -> (r: Self)
        ensures
            r.pos == pos,
            r.custom_velocity is None,
    {
        Destination { pos, custom_velocity: None }
    }
}

/// An entity travelling along a route of destinations at `velocity`, around and around when
/// the route is a circle, unless it is frozen.
pub struct Movement<P, S> {
    pub velocity: S,
    pub des: Vec<Destination<P, S>>,
    pub circle: bool,
    pub is_freezed: bool,
}

impl<P, S: Copy> Movement<P, S> {
    /// The entity stops where it is.
    pub fn freeze(&mut self)
        ensures
            final(self).is_freezed,
            final(self).velocity == old(self).velocity,
            final(self).des@ == old(self).des@,
            final(self).circle == old(self).circle,
    {
        self.is_freezed = true;
    }

    /// The entity travels on.
    pub fn go(&mut self)
        ensures
            !final(self).is_freezed,
            final(self).velocity == old(self).velocity,
            final(self).des@ == old(self).des@,
            final(self).circle == old(self).circle,
    {
        self.is_freezed = false;
    }

    /// The speed of the next leg: that of the next destination where it has one, else the
    /// entity's own; `None` when the entity does not travel (no destination left, or frozen).
    pub fn travel_speed(&self) -> (r: Option<S>)
        ensures
            (self.des@.len() == 0 || self.is_freezed) ==> r is None,
            !(self.des@.len() == 0 || self.is_freezed) ==> r == Some(
                match self.des@[0].custom_velocity {
                    Some(v) => v,
                    None => self.velocity,
                },
            ),
    {
        if self.des.len() == 0 || self.is_freezed {
            return None;
        }
        match self.des[0].custom_velocity {
            Some(v) => Some(v),
            None => Some(self.velocity),
        }
    }

    /// The entity reached its next destination: the route moves on (see `arrive`).
    pub fn arrived(&mut self)
        requires
            old(self).des@.len() > 0,
        ensures
            final(self).des@ == route_after_arrival(old(self).des@, old(self).circle),
            final(self).velocity == old(self).velocity,
            final(self).circle == old(self).circle,
            final(self).is_freezed == old(self).is_freezed,
    {
        arrive(&mut self.des, self.circle);
    }
}

/// The route after its first destination was reached: the rest of it, with the reached
/// destination put back at the end when the route is a circle.
pub open spec fn route_after_arrival<T>(route: Seq<T>, circle: bool) -> Seq<T> {
    if circle {
        route.drop_first().push(route[0])
    } else {
        route.drop_first()
    }
}

/// The route after `n` arrivals.
pub open spec fn route_after_arrivals<T>(route: Seq<T>, circle: bool, n: nat) -> Seq<T>
    decreases n,
{
    if n == 0 {
        route
    } else {
        route_after_arrival(route_after_arrivals(route, circle, (n - 1) as nat), circle)
    }
}

/// The first destination was reached: it leaves the route, and comes back at its end when
/// the route is a circle.
pub fn arrive<T>(route: &mut Vec<T>, circle: bool)
    requires
        old(route).len() > 0,
    ensures
        final(route)@ == route_after_arrival(old(route)@, circle),
{
    let first = route.remove(0);
    if circle {
        route.push(first);
    }
    proof {
        assert(final(route)@ =~= route_after_arrival(old(route)@, circle)) by {
        }
    }
}

/// After `k` arrivals on a circle of at least `k` destinations, the route is the original
/// one turned by `k` places.
pub proof fn lemma_circle_turns<T>(route: Seq<T>, k: nat)
    requires
        k <= route.len(),
    ensures
        route_after_arrivals(route, true, k) == route.skip(k as int) + route.take(k as int),
    decreases k,
{
    if k == 0 {
        assert(route.skip(0) + route.take(0) =~= route);
    } else {
        lemma_circle_turns(route, (k - 1) as nat);
        let prev = route_after_arrivals(route, true, (k - 1) as nat);
        assert(prev.len() == route.len());
        assert(prev.len() > 0);
        assert(prev[0] == route[k - 1]);
        assert(prev.drop_first().push(prev[0]) =~= route.skip(k as int) + route.take(k as int));
    }
}

/// A circular route with as many arrivals as destinations is back to where it started.
pub proof fn lemma_circle_returns<T>(route: Seq<T>)
    ensures
        route_after_arrivals(route, true, route.len()) == route,
{
    lemma_circle_turns(route, route.len());
    assert(route.skip(route.len() as int) + route.take(route.len() as int) =~= route);
}

/// On a route that is no circle, `k` arrivals drop the first `k` destinations.
pub proof fn lemma_line_shrinks<T>(route: Seq<T>, k: nat)
    requires
        k <= route.len(),
    ensures
        route_after_arrivals(route, false, k) == route.skip(k as int),
    decreases k,
{
    if k == 0 {
        assert(route.skip(0) =~= route);
    } else {
        lemma_line_shrinks(route, (k - 1) as nat);
        assert(route.skip((k - 1) as int).drop_first() =~= route.skip(k as int));
    }
}

} // verus!
