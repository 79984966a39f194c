//! Round-robin selection among futures: which future is polled first takes
//! turns, so that none of them can starve the others.
//!
//! The library decides the order in which the futures are polled; the
//! firmware polls them in that order.
use vstd::prelude::*;

verus! {

/// Positions `0..n`, starting at `start` and wrapping around.
pub open spec fn rotation(start: int, n: int) -> Seq<usize> {
    Seq::new(n as nat, |i: int| ((start + i) % n) as usize)
}

/// Appends to `order` the positions `0..n`, starting at `start` and wrapping around.
fn push_rotation(order: &mut Vec<usize>, start: usize, n: usize)
    requires
        start < n,
    ensures
        final(order)@ == old(order)@ + rotation(start as int, n as int),
{
    let ghost base = order@;
    let mut i: usize = 0;
    while i < n
        invariant
            start < n,
            i <= n,
            order@ == base + rotation(start as int, n as int).take(i as int),
        decreases n - i,
    {
        let pos = if i < n - start { start + i } else { i - (n - start) };
        assert(pos == (start + i) % (n as int)) by {
            if i < n - start {
                vstd::arithmetic::div_mod::lemma_small_mod((start + i) as nat, n as nat);
            } else {
                vstd::arithmetic::div_mod::lemma_fundamental_div_mod_converse(
                    (start + i) as int,
                    n as int,
                    1,
                    (i - (n - start)) as int,
                );
            }
        }
        order.push(pos);
        i = i + 1;
        assert(order@ =~= base + rotation(start as int, n as int).take(i as int));
    }
    assert(rotation(start as int, n as int).take(n as int) =~= rotation(start as int, n as int));
}

/// Which of two futures is polled first on the next poll.
#[derive(Copy, Clone, Debug, PartialEq, Eq, Structural)]
pub enum PollFirst2 {
    A,
    B,
}

/// Which of three futures is polled first on the next poll.
#[derive(Copy, Clone, Debug, PartialEq, Eq, Structural)]
pub enum PollFirst3 {
    A,
    B,
    C,
}

/// Which of four futures is polled first on the next poll.
#[derive(Copy, Clone, Debug, PartialEq, Eq, Structural)]
pub enum PollFirst4 {
    A,
    B,
    C,
    D,
}

impl PollFirst2 {
    /// The next turn, wrapping around.
    pub open spec fn next_spec(self) -> Self {
        match self {
            PollFirst2::A => PollFirst2::B,
            PollFirst2::B => PollFirst2::A,
        }
    }

    /// Position of the future polled first (`A` is 0).
    pub open spec fn index(self) -> int {
        match self {
            PollFirst2::A => 0,
            PollFirst2::B => 1,
        }
    }

    /// Hands the first turn to the next future, wrapping around.
    pub fn next(&mut self)
        ensures
            final(self).index() == (old(self).index() + 1) % 2,
            *final(self) == old(self).next_spec(),
    {
        match self {
            PollFirst2::A => *self = PollFirst2::B,
            PollFirst2::B => *self = PollFirst2::A,
        }
    }

    /// The order in which to poll: the first-polled future, then the others
    /// in turn, wrapping around.
    pub fn order(&self) -> (r: Vec<usize>)
        ensures
            r@ == rotation(self.index(), 2),
    {
        let start: usize = match self {
            PollFirst2::A => 0,
            PollFirst2::B => 1,
        };
        let mut r = Vec::new();
        push_rotation(&mut r, start, 2);
        assert(r@ =~= rotation(self.index(), 2));
        r
    }
}

impl PollFirst3 {
    /// The next turn, wrapping around.
    pub open spec fn next_spec(self) -> Self {
        match self {
            PollFirst3::A => PollFirst3::B,
            PollFirst3::B => PollFirst3::C,
            PollFirst3::C => PollFirst3::A,
        }
    }

    /// Position of the future polled first (`A` is 0).
    pub open spec fn index(self) -> int {
        match self {
            PollFirst3::A => 0,
            PollFirst3::B => 1,
            PollFirst3::C => 2,
        }
    }

    /// Hands the first turn to the next future, wrapping around.
    pub fn next(&mut self)
        ensures
            final(self).index() == (old(self).index() + 1) % 3,
            *final(self) == old(self).next_spec(),
    {
        match self {
            PollFirst3::A => *self = PollFirst3::B,
            PollFirst3::B => *self = PollFirst3::C,
            PollFirst3::C => *self = PollFirst3::A,
        }
    }

    /// The order in which to poll; see `PollFirst2::order`.
    pub fn order(&self) -> (r: Vec<usize>)
        ensures
            r@ == rotation(self.index(), 3),
    {
        let start: usize = match self {
            PollFirst3::A => 0,
            PollFirst3::B => 1,
            PollFirst3::C => 2,
        };
        let mut r = Vec::new();
        push_rotation(&mut r, start, 3);
        assert(r@ =~= rotation(self.index(), 3));
        r
    }
}

impl PollFirst4 {
    /// The next turn, wrapping around.
    pub open spec fn next_spec(self) -> Self {
        match self {
            PollFirst4::A => PollFirst4::B,
            PollFirst4::B => PollFirst4::C,
            PollFirst4::C => PollFirst4::D,
            PollFirst4::D => PollFirst4::A,
        }
    }

    /// Position of the future polled first (`A` is 0).
    pub open spec fn index(self) -> int {
        match self {
            PollFirst4::A => 0,
            PollFirst4::B => 1,
            PollFirst4::C => 2,
            PollFirst4::D => 3,
        }
    }

    /// Hands the first turn to the next future, wrapping around.
    pub fn next(&mut self)
        ensures
            final(self).index() == (old(self).index() + 1) % 4,
            *final(self) == old(self).next_spec(),
    {
        match self {
            PollFirst4::A => *self = PollFirst4::B,
            PollFirst4::B => *self = PollFirst4::C,
            PollFirst4::C => *self = PollFirst4::D,
            PollFirst4::D => *self = PollFirst4::A,
        }
    }

    /// The order in which to poll; see `PollFirst2::order`.
    pub fn order(&self) -> (r: Vec<usize>)
        ensures
            r@ == rotation(self.index(), 4),
    {
        let start: usize = match self {
            PollFirst4::A => 0,
            PollFirst4::B => 1,
            PollFirst4::C => 2,
            PollFirst4::D => 3,
        };
        let mut r = Vec::new();
        push_rotation(&mut r, start, 4);
        assert(r@ =~= rotation(self.index(), 4));
        r
    }
}

/// A selection between two futures that takes turns at being polled first.
pub struct RoundRobinSelect<'a, A, B> {
    pub poll_first: &'a mut PollFirst2,
    pub a: A,
    pub b: B,
}

/// A selection among three futures that take turns at being polled first.
pub struct RoundRobinSelect3<'a, A, B, C> {
    pub poll_first: &'a mut PollFirst3,
    pub a: A,
    pub b: B,
    pub c: C,
}

/// A selection among four futures that take turns at being polled first.
pub struct RoundRobinSelect4<'a, A, B, C, D> {
    pub poll_first: &'a mut PollFirst4,
    pub a: A,
    pub b: B,
    pub c: C,
    pub d: D,
}

/// Selects between `a` and `b`, the first turn going to the future that
/// `poll_first` names; the turn is kept in `poll_first` across selections.
pub fn round_robin_select<A, B>(poll_first: &mut PollFirst2, a: A, b: B) -> (r: RoundRobinSelect<'_, A, B>)
    ensures
        *r.poll_first == *old(poll_first),
        *final(poll_first) == *final(r.poll_first),
        r.a == a,
        r.b == b,
{
    RoundRobinSelect { poll_first, a, b }
}

/// Selects among `a`, `b` and `c`; see `round_robin_select`.
pub fn round_robin_select3<A, B, C>(poll_first: &mut PollFirst3, a: A, b: B, c: C) -> (r: RoundRobinSelect3<'_, A, B, C>)
    ensures
        *r.poll_first == *old(poll_first),
        *final(poll_first) == *final(r.poll_first),
        r.a == a,
        r.b == b,
        r.c == c,
{
    RoundRobinSelect3 { poll_first, a, b, c }
}

/// Selects among `a`, `b`, `c` and `d`; see `round_robin_select`.
pub fn round_robin_select4<A, B, C, D>(
    poll_first: &mut PollFirst4,
    a: A,
    b: B,
    c: C,
    d: D,
) -> (r: RoundRobinSelect4<'_, A, B, C, D>)
    ensures
        *r.poll_first == *old(poll_first),
        *final(poll_first) == *final(r.poll_first),
        r.a == a,
        r.b == b,
        r.c == c,
        r.d == d,
{
    RoundRobinSelect4 { poll_first, a, b, c, d }
}

impl<'a, A, B> RoundRobinSelect<'a, A, B> {
    /// Begins a poll: returns the order in which to poll the futures (0 is
    /// `a`), and hands the first turn of the next poll to the next future.
    pub fn start_poll(&mut self) -> (r: Vec<usize>)
        ensures
            r@ == rotation(old(self).poll_first.index(), 2),
            final(self).poll_first.index() == (old(self).poll_first.index() + 1) % 2,
            *final(self).poll_first == old(self).poll_first.next_spec(),
            *final(final(self).poll_first) == *final(old(self).poll_first),
            final(self).a == old(self).a,
            final(self).b == old(self).b,
    {
        let order = self.poll_first.order();
        self.poll_first.next();
        order
    }
}

impl<'a, A, B, C> RoundRobinSelect3<'a, A, B, C> {
    /// Begins a poll; see `RoundRobinSelect::start_poll`.
    pub fn start_poll(&mut self) -> (r: Vec<usize>)
        ensures
            r@ == rotation(old(self).poll_first.index(), 3),
            final(self).poll_first.index() == (old(self).poll_first.index() + 1) % 3,
            *final(self).poll_first == old(self).poll_first.next_spec(),
            *final(final(self).poll_first) == *final(old(self).poll_first),
            final(self).a == old(self).a,
            final(self).b == old(self).b,
            final(self).c == old(self).c,
    {
        let order = self.poll_first.order();
        self.poll_first.next();
        order
    }
}

impl<'a, A, B, C, D> RoundRobinSelect4<'a, A, B, C, D> {
    /// Begins a poll; see `RoundRobinSelect::start_poll`.
    pub fn start_poll(&mut self) -> (r: Vec<usize>)
        ensures
            r@ == rotation(old(self).poll_first.index(), 4),
            final(self).poll_first.index() == (old(self).poll_first.index() + 1) % 4,
            *final(self).poll_first == old(self).poll_first.next_spec(),
            *final(final(self).poll_first) == *final(old(self).poll_first),
            final(self).a == old(self).a,
            final(self).b == old(self).b,
            final(self).c == old(self).c,
            final(self).d == old(self).d,
    {
        let order = self.poll_first.order();
        self.poll_first.next();
        order
    }
}

/// A selection over a slice of futures that takes turns at which is polled
/// first, starting at `poll_next_idx`.
pub struct RoundRobinSelectSlice<'a, Fut> {
    pub inner: &'a mut [Fut],
    pub poll_next_idx: usize,
}

impl<'a, Fut> RoundRobinSelectSlice<'a, Fut> {
    /// A selection over `inner` whose first turn goes to the future at
    /// `first` (0 for an empty slice).
    pub fn new(inner: &'a mut [Fut], first: usize) -> (r: Self)
        requires
            first < old(inner)@.len() || (old(inner)@.len() == 0 && first == 0),
        ensures
            r.wf(),
            r.poll_next_idx == first,
            r.inner@ == old(inner)@,
            final(inner)@ == final(r.inner)@,
    {
        RoundRobinSelectSlice { inner, poll_next_idx: first }
    }

    /// The turn names a future of the slice (or is 0 for an empty slice).
    pub open spec fn wf(&self) -> bool {
        self.poll_next_idx < self.inner@.len() || (self.inner@.len() == 0 && self.poll_next_idx == 0)
    }

    /// Begins a poll: for an empty slice `None` (such a selection never
    /// completes); otherwise the order in which to poll the futures, from the
    /// one whose turn it is round to the one before it, and the turn passes
    /// to the next future.
    pub fn start_poll(&mut self) -> (r: Option<Vec<usize>>)
        requires
            old(self).wf(),
        ensures
            final(self).wf(),
            final(self).inner@ == old(self).inner@,
            old(self).inner@.len() == 0 ==> r is None && final(self).poll_next_idx == old(self).poll_next_idx,
            old(self).inner@.len() > 0 ==> r is Some && r->0@ == rotation(old(self).poll_next_idx as int, old(self).inner@.len() as int)
                && final(self).poll_next_idx == (old(self).poll_next_idx + 1) % (old(self).inner@.len() as int),
    {
        let n = self.inner.len();
        if n == 0 {
            return None;
        }
        let start = self.poll_next_idx;
        self.poll_next_idx = if start + 1 < n { start + 1 } else { 0 };
        proof {
            if start + 1 < n {
                vstd::arithmetic::div_mod::lemma_small_mod((start + 1) as nat, n as nat);
            } else {
                vstd::arithmetic::div_mod::lemma_mod_self_0(n as int);
            }
        }
        let mut order = Vec::new();
        push_rotation(&mut order, start, n);
        assert(order@ =~= rotation(start as int, n as int));
        Some(order)
    }
}

/// Round-robin selection over a slice of futures, the first turn going to a
/// random future so that no position is favoured: `drawn` is the index that
/// the firmware's random number generator drew uniformly from
/// `0..slice.len()`. An empty slice draws nothing, and its turn is 0.
pub fn unbiased_select_slice<'a, Fut>(drawn: usize, slice: &'a mut [Fut]) -> (r: RoundRobinSelectSlice<'a, Fut>)
    requires
        old(slice)@.len() > 0 ==> drawn < old(slice)@.len(),
    ensures
        r.wf(),
        r.inner@ == old(slice)@,
        final(slice)@ == final(r.inner)@,
        old(slice)@.len() > 0 ==> r.poll_next_idx == drawn,
        old(slice)@.len() == 0 ==> r.poll_next_idx == 0,
{
    let seed = if slice.len() != 0 { drawn } else { 0 };
    RoundRobinSelectSlice::new(slice, seed)
}

/// Every poll polls each future exactly once: the order is a permutation of
/// the positions.
pub proof fn lemma_rotation_is_permutation(start: int, n: int)
    requires
        0 <= start < n <= usize::MAX,
    ensures
        rotation(start, n).len() == n,
        forall|i: int| 0 <= i < n ==> 0 <= #[trigger] rotation(start, n)[i] < n,
        forall|i: int, j: int| 0 <= i < j < n ==> rotation(start, n)[i] != rotation(start, n)[j],
        forall|k: int| 0 <= k < n ==> #[trigger] rotation(start, n).contains(k as usize),
{
    let r = rotation(start, n);
    assert forall|i: int| 0 <= i < n implies 0 <= #[trigger] r[i] < n by {
        vstd::arithmetic::div_mod::lemma_mod_bound(start + i, n);
    }
    assert forall|i: int, j: int| 0 <= i < j < n implies r[i] != r[j] by {
        vstd::arithmetic::div_mod::lemma_mod_bound(start + i, n);
        vstd::arithmetic::div_mod::lemma_mod_bound(start + j, n);
        vstd::arithmetic::div_mod::lemma_fundamental_div_mod(start + i, n);
        vstd::arithmetic::div_mod::lemma_fundamental_div_mod(start + j, n);
        let qi = (start + i) / n;
        let qj = (start + j) / n;
        assert(0 <= qi <= 1 && 0 <= qj <= 1) by {
            vstd::arithmetic::div_mod::lemma_div_pos_is_pos(start + i, n);
            vstd::arithmetic::div_mod::lemma_div_pos_is_pos(start + j, n);
            if qi > 1 || qj > 1 {
                assert(n * qi >= 2 * n || n * qj >= 2 * n) by (nonlinear_arith)
                    requires n > 0, qi > 1 || qj > 1, qi >= 0, qj >= 0;
            }
        }
        if r[i] == r[j] {
            assert((start + i) % n == (start + j) % n);
            assert((start + j) - (start + i) == n * (qj - qi)) by (nonlinear_arith)
                requires
                    start + i == n * qi + (start + i) % n,
                    start + j == n * qj + (start + j) % n,
                    (start + i) % n == (start + j) % n;
            assert(n * (qj - qi) <= 0 || n * (qj - qi) >= n) by (nonlinear_arith)
                requires n > 0;
        }
    }
    assert forall|k: int| 0 <= k < n implies #[trigger] r.contains(k as usize) by {
        let i = if k >= start { k - start } else { k - start + n };
        if k >= start {
            vstd::arithmetic::div_mod::lemma_small_mod(k as nat, n as nat);
        } else {
            vstd::arithmetic::div_mod::lemma_fundamental_div_mod_converse(k + n, n, 1, k);
        }
        assert(r[i] == k as usize);
    }
}

/// Turns rotate fairly: after `k` polls the first turn has moved on `k`
/// places, so over any `n` consecutive polls of `n` futures each is polled
/// first once.
pub proof fn lemma_turns_visit_every_future(start: int, n: int, k: int, l: int)
    requires
        0 <= start < n <= usize::MAX,
        0 <= k < l < n,
    ensures
        (start + k) % n != (start + l) % n,
{
    lemma_rotation_is_permutation(start, n);
    assert(rotation(start, n)[k] != rotation(start, n)[l]);
}

/// Two successive selections between two futures hand the first turn to
/// different futures, and the turn is back where it started: a future that is
/// always ready is polled first within every two polls.
pub proof fn lemma_two_selections_alternate(p: PollFirst2)
    ensures
        rotation(p.index(), 2)[0] != rotation(p.next_spec().index(), 2)[0],
        p.next_spec().next_spec() == p,
{
}

/// Three successive selections among three futures hand the first turn to
/// each future once, and the turn is back where it started.
pub proof fn lemma_three_selections_rotate(p: PollFirst3)
    ensures
        rotation(p.index(), 3)[0] != rotation(p.next_spec().index(), 3)[0],
        rotation(p.index(), 3)[0] != rotation(p.next_spec().next_spec().index(), 3)[0],
        rotation(p.next_spec().index(), 3)[0] != rotation(p.next_spec().next_spec().index(), 3)[0],
        p.next_spec().next_spec().next_spec() == p,
{
}

/// Four successive selections among four futures hand the first turn to each
/// future once, and applying `next` four times gives back the first turn.
pub proof fn lemma_four_selections_rotate(p: PollFirst4)
    ensures
        ({
            let p1 = p.next_spec();
            let p2 = p1.next_spec();
            let p3 = p2.next_spec();
            &&& rotation(p.index(), 4)[0] != rotation(p1.index(), 4)[0]
            &&& rotation(p.index(), 4)[0] != rotation(p2.index(), 4)[0]
            &&& rotation(p.index(), 4)[0] != rotation(p3.index(), 4)[0]
            &&& rotation(p1.index(), 4)[0] != rotation(p2.index(), 4)[0]
            &&& rotation(p1.index(), 4)[0] != rotation(p3.index(), 4)[0]
            &&& rotation(p2.index(), 4)[0] != rotation(p3.index(), 4)[0]
            &&& p3.next_spec() == p
        }),
{
}

} // verus!
