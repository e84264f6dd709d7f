use vstd::prelude::*;

verus! {

/// One growable GPU buffer slot, tracked by its current capacity in
/// elements. The buffer object itself lives on the device; when the slot
/// grows, the device adapter allocates a fresh buffer of the new capacity
/// and releases the old one.
#[derive(Clone, Copy, Debug, PartialEq, Eq, Structural)]
pub struct Buffer {
    pub capacity: u32,
}

/// Capacity of a buffer slot after serving one frame that needs `demand`
/// elements, growing by `slack` extra elements when the current capacity
/// falls short and staying put otherwise.
pub open spec fn grown_capacity(cap: int, demand: int, slack: int) -> int {
    if cap < demand {
        demand + slack
    } else {
        cap
    }
}

impl Buffer {
    /// An initial buffer slot holding nothing but the slack margin.
    pub fn with_slack(slack: u32) -> (r: Buffer)
        ensures
            r.capacity == slack,
    {
        Buffer { capacity: slack }
    }

    /// Current capacity of the buffer, in elements.
    pub fn len(&self) -> (r: u32)
        ensures
            r == self.capacity,
    {
        self.capacity
    }

    /// Serve a frame that needs `demand` elements: grow to `demand + slack`
    /// if the current capacity falls short. Returns the capacity to
    /// allocate, or `None` when the current buffer already suffices.
    pub fn ensure_capacity(&mut self, demand: u32, slack: u32) -> (r: Option<u32>)
        requires
            demand + slack <= u32::MAX,
        ensures
            final(self).capacity == grown_capacity(old(self).capacity as int, demand as int, slack as int),
            final(self).capacity >= demand,
            final(self).capacity >= old(self).capacity,
            r == if old(self).capacity < demand {
                Some(final(self).capacity)
            } else {
                None::<u32>
            },
    {
        if self.capacity < demand {
            self.capacity = demand + slack;
            Some(self.capacity)
        } else {
            None
        }
    }
}

/// Capacity of a buffer slot after a sequence of frames with the given
/// demands.
pub open spec fn capacity_after(cap: int, demands: Seq<int>, slack: int) -> int
    decreases demands.len(),
{
    if demands.len() == 0 {
        cap
    } else {
        capacity_after(grown_capacity(cap, demands[0], slack), demands.drop_first(), slack)
    }
}

proof fn lemma_capacity_after_push(cap: int, demands: Seq<int>, x: int, slack: int)
    ensures
        capacity_after(cap, demands.push(x), slack) == grown_capacity(
            capacity_after(cap, demands, slack),
            x,
            slack,
        ),
    decreases demands.len(),
{
    if demands.len() == 0 {
        assert(demands.push(x)[0] == x);
        assert(demands.push(x).drop_first() =~= Seq::<int>::empty());
        assert(capacity_after(cap, demands.push(x), slack) == capacity_after(
            grown_capacity(cap, x, slack),
            demands.push(x).drop_first(),
            slack,
        ));
        assert(capacity_after(grown_capacity(cap, x, slack), Seq::<int>::empty(), slack)
            == grown_capacity(cap, x, slack));
        assert(capacity_after(cap, demands, slack) == cap);
    } else {
        assert(demands.push(x)[0] == demands[0]);
        assert(demands.push(x).drop_first() =~= demands.drop_first().push(x));
        lemma_capacity_after_push(grown_capacity(cap, demands[0], slack), demands.drop_first(), x, slack);
        assert(capacity_after(cap, demands.push(x), slack) == capacity_after(
            grown_capacity(cap, demands[0], slack),
            demands.drop_first().push(x),
            slack,
        ));
        assert(capacity_after(cap, demands, slack) == capacity_after(
            grown_capacity(cap, demands[0], slack),
            demands.drop_first(),
            slack,
        ));
    }
}

/// Growth monotonicity: over any sequence of frames, the buffer capacity
/// after frame `i` is at least the demand of every frame seen so far, and
/// it never decreases from one frame to the next.
pub proof fn lemma_growth_monotonic(cap: int, demands: Seq<int>, slack: int, i: int, j: int)
    requires
        0 <= slack,
        0 <= j <= i < demands.len(),
    ensures
        capacity_after(cap, demands.take(i + 1), slack) >= demands[j],
        capacity_after(cap, demands.take(i), slack) <= capacity_after(cap, demands.take(i + 1), slack),
    decreases i - j,
{
    assert(demands.take(i + 1) =~= demands.take(i).push(demands[i]));
    lemma_capacity_after_push(cap, demands.take(i), demands[i], slack);
    if j < i {
        lemma_growth_monotonic(cap, demands, slack, i - 1, j);
        assert(demands.take(i) =~= demands.take(i - 1).push(demands[i - 1]));
    }
}

} // verus!
