//! Bounded history of the positions a body has passed through: a ring that keeps
//! the newest points and forgets the oldest, in constant time per point.

use vstd::prelude::*;

verus! {

/// What a trace holds, as mathematics: its points, oldest first, and the most
/// it may hold.
#[verifier::ext_equal]
pub struct TraceModel<T> {
    pub points: Seq<T>,
    pub capacity: nat,
}

impl<T> TraceModel<T> {
    /// The trace holds no more points than its capacity.
    pub open spec fn wf(self) -> bool {
        self.points.len() <= self.capacity
    }

    /// The trace after one more point: the point joins at the end, and if that
    /// makes the trace longer than its capacity, its oldest point goes.
    pub open spec fn pushed(self, point: T) -> TraceModel<T> {
        let grown = self.points.push(point);
        TraceModel {
            points: if grown.len() > self.capacity {
                grown.subrange(1, grown.len() as int)
            } else {
                grown
            },
            capacity: self.capacity,
        }
    }

    /// The trace after a run of points, pushed in order.
    pub open spec fn pushed_all(self, run: Seq<T>) -> TraceModel<T>
        decreases run.len(),
    {
        if run.len() == 0 {
            self
        } else {
            self.pushed_all(run.drop_last()).pushed(run.last())
        }
    }
}

/// The last `count` points of a sequence, or all of it if it has fewer.
pub open spec fn newest<T>(points: Seq<T>, count: nat) -> Seq<T> {
    if points.len() <= count {
        points
    } else {
        points.subrange(points.len() - count, points.len() as int)
    }
}

/// Each point paired with the one after it, in order.
pub open spec fn adjacent_pairs<T>(points: Seq<T>) -> Seq<(T, T)> {
    Seq::new(
        if points.len() == 0 {
            0nat
        } else {
            (points.len() - 1) as nat
        },
        |i: int| (points[i], points[i + 1]),
    )
}

/// The most recent points of a trace, oldest first, never more than its capacity.
pub struct TraceBuffer<T> {
    slots: Vec<T>,
    head: usize,
    capacity: usize,
}

impl<T> View for TraceBuffer<T> {
    type V = TraceModel<T>;

    /// The ring unrolled from its oldest point, with the capacity it was made with.
    closed spec fn view(&self) -> TraceModel<T> {
        TraceModel {
            points: self.slots@.subrange(self.head as int, self.slots@.len() as int)
                + self.slots@.subrange(0, self.head as int),
            capacity: self.capacity as nat,
        }
    }
}

impl<T> TraceBuffer<T> {
    #[verifier::type_invariant]
    spec fn ring_is_sound(self) -> bool {
        &&& self.slots@.len() <= self.capacity
        &&& self.head == 0 || self.head < self.slots@.len()
        &&& self.slots@.len() < self.capacity ==> self.head == 0
    }

    /// An empty trace that will hold up to `capacity` points.
    pub fn new(capacity: usize) -> (trace: TraceBuffer<T>)
        ensures
            trace@ == (TraceModel { points: Seq::<T>::empty(), capacity: capacity as nat }),
    {
        let trace = TraceBuffer { slots: Vec::new(), head: 0, capacity };
        assert(trace@ =~= (TraceModel { points: Seq::<T>::empty(), capacity: capacity as nat }));
        trace
    }

    /// The most points the trace holds.
    pub fn capacity(&self) -> (capacity: usize)
        ensures
            capacity == self@.capacity,
    {
        self.capacity
    }

    /// How many points the trace holds now.
    pub fn len(&self) -> (len: usize)
        ensures
            len == self@.points.len(),
            len <= self@.capacity,
    {
        proof {
            use_type_invariant(self);
        }
        self.slots.len()
    }

    /// Whether the trace holds no point.
    pub fn is_empty(&self) -> (empty: bool)
        ensures
            empty == (self@.points.len() == 0),
    {
        proof {
            use_type_invariant(self);
        }
        self.slots.len() == 0
    }

    /// The `i`-th oldest point, if there are that many.
    pub fn get(&self, i: usize) -> (point: Option<&T>)
        ensures
            i < self@.points.len() ==> point == Some(&self@.points[i as int]),
            i >= self@.points.len() ==> point.is_none(),
    {
        proof {
            use_type_invariant(self);
        }
        let len: usize = self.slots.len();
        if i >= len {
            return None;
        }
        let tail: usize = len - self.head;
        let slot: usize = if i < tail {
            self.head + i
        } else {
            i - tail
        };
        Some(&self.slots[slot])
    }

    /// The `i`-th segment of the trace: the `i`-th oldest point and the one that
    /// followed it. There is one segment fewer than there are points.
    pub fn pair(&self, i: usize) -> (ends: Option<(&T, &T)>)
        ensures
            i + 1 < self@.points.len() ==> ends == Some(
                (&self@.points[i as int], &self@.points[i + 1]),
            ),
            i + 1 >= self@.points.len() ==> ends.is_none(),
    {
        proof {
            use_type_invariant(self);
        }
        if i >= self.slots.len() || i + 1 >= self.slots.len() {
            return None;
        }
        match (self.get(i), self.get(i + 1)) {
            (Some(from), Some(to)) => Some((from, to)),
            _ => None,
        }
    }

    /// Records a point. A full trace forgets its oldest point to make room; a
    /// trace of capacity zero stays empty.
    pub fn push(&mut self, point: T)
        ensures
            final(self)@ == old(self)@.pushed(point),
            final(self)@.wf(),
    {
        proof {
            use_type_invariant(&*self);
        }
        let ghost before = self@.points;
        if self.capacity == 0 {
            assert(self@ =~= old(self)@.pushed(point));
            return;
        }
        let head: usize = self.head;
        let mut slots: Vec<T> = Vec::new();
        self.head = 0;
        std::mem::swap(&mut slots, &mut self.slots);
        if slots.len() < self.capacity {
            slots.push(point);
            std::mem::swap(&mut slots, &mut self.slots);
            assert(self@ =~= old(self)@.pushed(point));
        } else {
            slots.set(head, point);
            std::mem::swap(&mut slots, &mut self.slots);
            self.head = if head + 1 == self.capacity {
                0
            } else {
                head + 1
            };
            assert(self@ =~= old(self)@.pushed(point));
        }
    }
}

impl<T: Copy> TraceBuffer<T> {
    /// The points held, oldest first.
    pub fn points(&self) -> (points: Vec<T>)
        ensures
            points@ == self@.points,
    {
        proof {
            use_type_invariant(self);
        }
        let len: usize = self.slots.len();
        let mut points: Vec<T> = Vec::new();
        let mut i: usize = self.head;
        while i < len
            invariant
                len == self.slots@.len(),
                self.head <= i <= len,
                points@ == self.slots@.subrange(self.head as int, i as int),
            decreases len - i,
        {
            points.push(self.slots[i]);
            i = i + 1;
            assert(points@ =~= self.slots@.subrange(self.head as int, i as int));
        }
        let mut j: usize = 0;
        while j < self.head
            invariant
                len == self.slots@.len(),
                self.head <= len,
                j <= self.head,
                points@ == self.slots@.subrange(self.head as int, len as int)
                    + self.slots@.subrange(0, j as int),
            decreases self.head - j,
        {
            points.push(self.slots[j]);
            j = j + 1;
            assert(points@ =~= self.slots@.subrange(self.head as int, len as int)
                + self.slots@.subrange(0, j as int));
        }
        points
    }

    /// Every segment of the trace in order: each point with the one after it.
    pub fn pairs(&self) -> (pairs: Vec<(T, T)>)
        ensures
            pairs@ == adjacent_pairs(self@.points),
    {
        let points: Vec<T> = self.points();
        let mut pairs: Vec<(T, T)> = Vec::new();
        if points.len() == 0 {
            assert(pairs@ =~= adjacent_pairs(self@.points));
            return pairs;
        }
        let last: usize = points.len() - 1;
        let mut i: usize = 0;
        while i < last
            invariant
                points@ == self@.points,
                last == points@.len() - 1,
                i <= last,
                pairs@.len() == i,
                forall|k: int| 0 <= k < i ==> pairs@[k] == (self@.points[k], self@.points[k + 1]),
            decreases last - i,
        {
            pairs.push((points[i], points[i + 1]));
            i = i + 1;
        }
        assert(pairs@ =~= adjacent_pairs(self@.points));
        pairs
    }
}

/// However many points are pushed, the trace is never longer than its capacity,
/// and it holds the newest points of all that it held or was given, in the order
/// in which they came.
pub proof fn lemma_trace_keeps_newest<T>(trace: TraceModel<T>, run: Seq<T>)
    requires
        trace.wf(),
    ensures
        trace.pushed_all(run).points == newest(trace.points + run, trace.capacity),
        trace.pushed_all(run).capacity == trace.capacity,
        trace.pushed_all(run).wf(),
    decreases run.len(),
{
    if run.len() == 0 {
        assert(trace.points + run =~= trace.points);
    } else {
        let earlier = run.drop_last();
        lemma_trace_keeps_newest(trace, earlier);
        assert((trace.points + earlier).push(run.last()) =~= trace.points + run);
        assert(trace.pushed_all(earlier).pushed(run.last()).points =~= newest(
            trace.points + run,
            trace.capacity,
        ));
    }
}

/// After more pushes into an empty trace than its capacity, the trace holds
/// exactly the last `capacity` of the pushed points, in push order.
pub proof fn lemma_overfull_trace_holds_last_pushes<T>(capacity: nat, run: Seq<T>)
    requires
        run.len() > capacity,
    ensures
        (TraceModel { points: Seq::<T>::empty(), capacity }).pushed_all(run).points
            == run.subrange(run.len() - capacity, run.len() as int),
        (TraceModel { points: Seq::<T>::empty(), capacity }).pushed_all(run).points.len()
            == capacity,
{
    lemma_trace_keeps_newest(TraceModel { points: Seq::<T>::empty(), capacity }, run);
    assert(Seq::<T>::empty() + run =~= run);
}

} // verus!
