use vstd::prelude::*;
use std::collections::VecDeque;

verus! {

/// The recent positions of one particle, oldest first and newest last. A
/// trail starts at the particle's spawn point, and no operation empties it.
pub struct Trail<T> {
    points: VecDeque<T>,
}

impl<T> View for Trail<T> {
    type V = Seq<T>;

    closed spec fn view(&self) -> Seq<T> {
        self.points@
    }
}

/// The trail after `p` is recorded with room for `trail_length` segments:
/// `p` is appended and, when that leaves more than `trail_length + 1`
/// points, the oldest one is dropped.
pub open spec fn recorded<T>(points: Seq<T>, p: T, trail_length: nat) -> Seq<T> {
    if points.len() + 1 > trail_length + 1 {
        points.push(p).drop_first()
    } else {
        points.push(p)
    }
}

impl<T> Trail<T> {
    /// A trail holding only `start`.
    pub fn new(start: T) -> (t: Self)
        ensures
            t@ == seq![start],
    {
        let mut points = VecDeque::new();
        points.push_back(start);
        Trail { points }
    }

    /// Appends `p` as the newest point, then drops the oldest one if more than
    /// `trail_length + 1` points remain.
    pub fn record(&mut self, p: T, trail_length: usize)
        requires
            trail_length < usize::MAX,
        ensures
            final(self)@ == recorded(old(self)@, p, trail_length as nat),
            final(self)@.last() == p,
            old(self)@.len() + 1 <= trail_length + 1 ==> final(self)@ == old(self)@.push(p),
            old(self)@.len() + 1 > trail_length + 1 ==> final(self)@ == old(self)@.drop_first().push(
                p,
            ),
    {
        self.points.push_back(p);
        if self.points.len() > trail_length + 1 {
            self.points.pop_front();
        }
    }

    /// Forgets every point and starts again at `p`.
    pub fn restart(&mut self, p: T)
        ensures
            final(self)@ == seq![p],
    {
        self.points.clear();
        self.points.push_back(p);
    }

    /// Number of points held.
    pub fn len(&self) -> (n: usize)
        ensures
            n == self@.len(),
    {
        self.points.len()
    }

    /// The point at position `i`, counted from the oldest.
    pub fn get(&self, i: usize) -> (p: &T)
        requires
            i < self@.len(),
        ensures
            *p == self@[i as int],
    {
        &self.points[i]
    }
}


/// The trail after recording each position of `ps` in turn.
pub open spec fn recorded_all<T>(points: Seq<T>, ps: Seq<T>, trail_length: nat) -> Seq<T>
    decreases ps.len(),
{
    if ps.len() == 0 {
        points
    } else {
        recorded_all(recorded(points, ps[0], trail_length), ps.drop_first(), trail_length)
    }
}

/// The last `n` elements of `s`, or all of `s` when it is shorter.
pub open spec fn latest<T>(s: Seq<T>, n: nat) -> Seq<T> {
    if s.len() > n {
        s.skip(s.len() - n)
    } else {
        s
    }
}

/// Recording a position never empties a trail, makes that position the
/// newest, and keeps a trail that held at most `trail_length + 1` points
/// within that bound.
pub proof fn lemma_record_newest_and_bounded<T>(points: Seq<T>, p: T, trail_length: nat)
    ensures
        recorded(points, p, trail_length).len() >= 1,
        recorded(points, p, trail_length).last() == p,
        points.len() <= trail_length + 1 ==> recorded(points, p, trail_length).len() <= trail_length
            + 1,
{
}

/// A trail that holds at most `trail_length + 1` points holds, after any
/// further positions are recorded, exactly the latest `trail_length + 1`
/// points of everything it has seen.
pub proof fn lemma_trail_keeps_latest<T>(points: Seq<T>, ps: Seq<T>, trail_length: nat)
    requires
        points.len() <= trail_length + 1,
    ensures
        recorded_all(points, ps, trail_length) == latest(points + ps, trail_length + 1),
    decreases ps.len(),
{
    let n = trail_length + 1;
    if ps.len() == 0 {
        assert(points + ps =~= points);
    } else {
        let p = ps[0];
        let rest = ps.drop_first();
        let next = recorded(points, p, trail_length);
        assert(next =~= latest(points.push(p), n));
        lemma_trail_keeps_latest(next, rest, trail_length);
        let all = points + ps;
        assert(points.push(p) + rest =~= all);
        if points.len() + 1 > n {
            assert(next + rest =~= all.skip(1));
            assert(latest(next + rest, n) =~= latest(all, n));
        } else {
            assert(next + rest =~= all);
        }
    }
}


/// Recording appends `p` as the newest point and keeps every other point in
/// order; it drops only the oldest point, and only when keeping it would
/// leave more than `trail_length + 1` points. So a trail never grows past
/// the larger of its own length and `trail_length + 1`, and a trail already
/// over the limit keeps its length.
pub proof fn lemma_record_drops_only_the_oldest<T>(points: Seq<T>, p: T, trail_length: nat)
    ensures
        recorded(points, p, trail_length).last() == p,
        points.len() + 1 <= trail_length + 1 ==> recorded(points, p, trail_length) == points.push(p),
        points.len() + 1 > trail_length + 1 ==> recorded(points, p, trail_length)
            == points.drop_first().push(p),
        points.len() > trail_length + 1 ==> recorded(points, p, trail_length).len() == points.len(),
        recorded(points, p, trail_length).len() <= if points.len() > trail_length + 1 {
            points.len()
        } else {
            trail_length + 1
        },
        recorded(points, p, trail_length).len() >= 1,
{
    if points.len() + 1 > trail_length + 1 {
        assert(points.push(p).drop_first() =~= points.drop_first().push(p));
    }
}

} // verus!
