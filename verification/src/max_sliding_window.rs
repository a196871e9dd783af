use std::collections::VecDeque;
use vstd::prelude::*;

verus! {

/// Capacity used by `Default`: one sample per second for one minute.
pub const DEFAULT_CAPACITY: usize = 60;

/// The greatest `value` component among the samples of `s`; 0 when `s` is empty.
pub open spec fn values_max(s: Seq<(u64, u64)>) -> u64
    decreases s.len(),
{
    if s.len() == 0 {
        0
    } else if s.len() == 1 {
        s[0].1
    } else {
        let rest = values_max(s.skip(1));
        if s[0].1 >= rest {
            s[0].1
        } else {
            rest
        }
    }
}

/// The data position just below the gap that ends at record `k`:
/// the previous recorded position, or -1 for the first record.
pub open spec fn gap_low(r: Seq<int>, k: int) -> int {
    if k == 0 {
        -1
    } else {
        r[k - 1]
    }
}

/// The recorded positions `r` tie the auxiliary deque `m` to the data deque `d`:
/// each auxiliary entry is the value stored at its recorded position, positions
/// strictly increase, the auxiliary deque never increases, and every sample
/// strictly between two recorded positions is strictly below the record to its
/// right.
pub open spec fn records_sound(d: Seq<(u64, u64)>, m: Seq<u64>, r: Seq<int>) -> bool {
    &&& m.len() == r.len()
    &&& forall|k: int| 0 <= k < r.len() ==> 0 <= #[trigger] r[k] < d.len()
    &&& forall|k1: int, k2: int| #![trigger r[k1], r[k2]]
        0 <= k1 < k2 < r.len() ==> r[k1] < r[k2]
    &&& forall|k: int| 0 <= k < r.len() ==> #[trigger] m[k] == d[r[k]].1
    &&& forall|k1: int, k2: int| #![trigger m[k1], m[k2]]
        0 <= k1 <= k2 < m.len() ==> m[k1] >= m[k2]
    &&& forall|k: int, j: int| #![trigger m[k], d[j]]
        0 <= k < r.len() && gap_low(r, k) < j && j < r[k] ==> d[j].1 < m[k]
}

/// The records reach the end of the data deque: the newest sample is always
/// recorded, and an empty data deque has no records.
pub open spec fn records_complete(d: Seq<(u64, u64)>, m: Seq<u64>, r: Seq<int>) -> bool {
    &&& d.len() > 0 ==> r.len() > 0 && r[r.len() - 1] == d.len() - 1
    &&& d.len() == 0 ==> r.len() == 0
}

/// A fixed-capacity rolling window of `(key, value)` samples with an O(1)
/// maximum query, kept by a monotonic-decreasing auxiliary deque.
pub struct MaxSlidingWindow {
    pub data: VecDeque<(u64, u64)>,
    pub max_queue: VecDeque<u64>,
    capacity: usize,
    records: Ghost<Seq<int>>,
}

impl View for MaxSlidingWindow {
    type V = Seq<(u64, u64)>;

    closed spec fn view(&self) -> Seq<(u64, u64)> {
        self.data@
    }
}

impl MaxSlidingWindow {
    /// The capacity fixed at construction.
    pub closed spec fn cap(&self) -> int {
        self.capacity as int
    }

    /// The structural invariant of the two deques, without the capacity bound.
    pub closed spec fn deques_linked(&self) -> bool {
        &&& records_sound(self.data@, self.max_queue@, self.records@)
        &&& records_complete(self.data@, self.max_queue@, self.records@)
    }

    /// The full invariant: linked deques and no more samples than the capacity.
    pub closed spec fn well_formed(&self) -> bool {
        &&& self.deques_linked()
        &&& self.data@.len() <= self.cap()
    }

    /// The window never holds more samples than its capacity.
    pub proof fn lemma_capacity_bound(&self)
        requires
            self.well_formed(),
        ensures
            self@.len() <= self.cap(),
    {
    }

    pub fn new(capacity: usize) -> (w: Self)
        ensures
            w@ == Seq::<(u64, u64)>::empty(),
            w.well_formed(),
            w.cap() == capacity,
    {
        MaxSlidingWindow {
            data: VecDeque::new(),
            max_queue: VecDeque::new(),
            capacity,
            records: Ghost(Seq::empty()),
        }
    }

    pub fn add(&mut self, x: (u64, u64))
        requires
            old(self).well_formed(),
        ensures
            final(self).well_formed(),
            final(self).cap() == old(self).cap(),
            final(self)@ == if old(self)@.len() < old(self).cap() {
                old(self)@.push(x)
            } else {
                old(self)@.push(x).skip(1)
            },
            final(self)@.len() <= final(self).cap(),
    {
        let ghost full = old(self)@.push(x);
        self.data.push_back(x);
        while self.max_queue.len() > 0 && self.max_queue[self.max_queue.len() - 1] < x.1
            invariant
                self.data@ == full,
                self.capacity == old(self).capacity,
                records_sound(self.data@, self.max_queue@, self.records@),
                forall|k: int| 0 <= k < self.records@.len()
                    ==> #[trigger] self.records@[k] < full.len() - 1,
                forall|j: int| #![trigger full[j]]
                    gap_low(self.records@, self.records@.len() as int) < j && j < full.len() - 1
                        ==> full[j].1 < x.1,
            decreases self.max_queue@.len(),
        {
            let ghost m0 = self.max_queue@;
            let ghost r0 = self.records@;
            self.max_queue.pop_back();
            self.records = Ghost(self.records@.drop_last());
            proof {
                assert(self.max_queue@ =~= m0.drop_last());
                let rn = self.records@;
                assert forall|j: int| #![trigger full[j]]
                    gap_low(rn, rn.len() as int) < j && j < full.len() - 1
                        implies full[j].1 < x.1 by {
                    let last = r0.len() - 1;
                    if j < r0[last] {
                        assert(full[j].1 < m0[last]);
                    } else if j == r0[last] {
                        assert(full[j].1 == m0[last]);
                    }
                }
            }
        }
        let ghost m1 = self.max_queue@;
        let ghost r1 = self.records@;
        self.max_queue.push_back(x.1);
        self.records = Ghost(self.records@.push(full.len() - 1));
        proof {
            let m2 = self.max_queue@;
            let r2 = self.records@;
            assert(r2[r2.len() - 1] == full.len() - 1);
            assert forall|k1: int, k2: int| #![trigger m2[k1], m2[k2]]
                0 <= k1 <= k2 < m2.len() implies m2[k1] >= m2[k2] by {
                if k2 == m2.len() - 1 && k1 < k2 {
                    assert(m1[k1] >= m1[m1.len() - 1]);
                }
            }
            assert forall|k: int, j: int| #![trigger m2[k], full[j]]
                0 <= k < r2.len() && gap_low(r2, k) < j && j < r2[k]
                    implies full[j].1 < m2[k] by {
                if k < r2.len() - 1 {
                    assert(m1[k] == full[r1[k]].1);
                }
            }
            assert(records_sound(full, m2, r2));
            assert(records_complete(full, m2, r2));
        }
        while self.data.len() > self.capacity
            invariant
                self.capacity == old(self).capacity,
                self.deques_linked(),
                full.len() - 1 <= self.capacity,
                self.data@.len() == full.len() || self.data@.len() == full.len() - 1,
                self.data@.len() == full.len() - 1 ==> full.len() == self.capacity + 1,
                self.data@ == full.skip(full.len() - self.data@.len()),
            decreases self.data@.len(),
        {
            let ghost before = self.data@;
            self.remove();
            proof {
                assert(self.data@ =~= full.skip(full.len() - self.data@.len()));
            }
        }
        proof {
            assert(full.skip(0) =~= full);
            if old(self)@.len() < old(self).cap() {
                assert(self.data@ =~= full);
            } else {
                assert(self.data@ =~= full.skip(1));
            }
        }
    }

    fn remove(&mut self)
        requires
            old(self).deques_linked(),
        ensures
            final(self).deques_linked(),
            final(self).cap() == old(self).cap(),
            final(self)@ == if old(self)@.len() == 0 {
                old(self)@
            } else {
                old(self)@.skip(1)
            },
    {
        let ghost d0 = self.data@;
        let ghost m0 = self.max_queue@;
        let ghost r0 = self.records@;
        match self.data.pop_front() {
            None => {}
            Some(front) => {
                proof {
                    assert(self.data@ =~= d0.skip(1));
                    assert(m0.len() > 0);
                }
                if front.1 == self.max_queue[0] {
                    proof {
                        if r0[0] != 0 {
                            assert(d0[0].1 < m0[0]);
                        }
                        assert(r0[0] == 0);
                    }
                    self.max_queue.pop_front();
                    self.records = Ghost(r0.skip(1).map_values(|p: int| p - 1));
                    proof {
                        let d = self.data@;
                        let m = self.max_queue@;
                        let r = self.records@;
                        assert(m =~= m0.skip(1));
                        assert forall|k: int| 0 <= k < r.len()
                            implies 0 <= #[trigger] r[k] < d.len() by {
                            assert(r[k] == r0[k + 1] - 1);
                            assert(r0[0] < r0[k + 1]);
                        }
                        assert forall|k: int| 0 <= k < r.len()
                            implies #[trigger] m[k] == d[r[k]].1 by {
                            assert(m0[k + 1] == d0[r0[k + 1]].1);
                            assert(d[r0[k + 1] - 1] == d0[r0[k + 1]]);
                        }
                        assert forall|k: int, j: int| #![trigger m[k], d[j]]
                            0 <= k < r.len() && gap_low(r, k) < j && j < r[k]
                                implies d[j].1 < m[k] by {
                            assert(d[j] == d0[j + 1]);
                            assert(gap_low(r0, k + 1) < j + 1 && j + 1 < r0[k + 1]);
                            assert(d0[j + 1].1 < m0[k + 1]);
                        }
                        if d.len() > 0 {
                            assert(r0[r0.len() - 1] == d0.len() - 1);
                            assert(r0.len() >= 2);
                            assert(r[r.len() - 1] == r0[r0.len() - 1] - 1);
                        }
                        assert(records_sound(d, m, r));
                        assert(records_complete(d, m, r));
                    }
                } else {
                    proof {
                        if r0[0] == 0 {
                            assert(m0[0] == d0[0].1);
                        }
                        assert(r0[0] >= 1);
                    }
                    self.records = Ghost(r0.map_values(|p: int| p - 1));
                    proof {
                        let d = self.data@;
                        let m = self.max_queue@;
                        let r = self.records@;
                        assert forall|k: int| 0 <= k < r.len()
                            implies 0 <= #[trigger] r[k] < d.len() by {
                            assert(r[k] == r0[k] - 1);
                            if k > 0 {
                                assert(r0[0] < r0[k]);
                            }
                        }
                        assert forall|k: int| 0 <= k < r.len()
                            implies #[trigger] m[k] == d[r[k]].1 by {
                            assert(m0[k] == d0[r0[k]].1);
                            assert(d[r0[k] - 1] == d0[r0[k]]);
                        }
                        assert forall|k: int, j: int| #![trigger m[k], d[j]]
                            0 <= k < r.len() && gap_low(r, k) < j && j < r[k]
                                implies d[j].1 < m[k] by {
                            assert(d[j] == d0[j + 1]);
                            assert(gap_low(r0, k) < j + 1 && j + 1 < r0[k]);
                            assert(d0[j + 1].1 < m0[k]);
                        }
                        if d.len() > 0 {
                            assert(r[r.len() - 1] == r0[r0.len() - 1] - 1);
                        }
                        assert(d.len() > 0);
                        assert(records_sound(d, m, r));
                        assert(records_complete(d, m, r));
                    }
                }
            }
        }
    }

    pub fn get_max(&self) -> (r: Option<u64>)
        requires
            self.well_formed(),
        ensures
            r == if self@.len() == 0 {
                None::<u64>
            } else {
                Some(values_max(self@))
            },
    {
        if self.max_queue.len() == 0 {
            None
        } else {
            proof {
                self.lemma_front_is_max();
            }
            Some(self.max_queue[0])
        }
    }

    pub fn clear(&mut self)
        requires
            old(self).well_formed(),
        ensures
            final(self).well_formed(),
            final(self).cap() == old(self).cap(),
            final(self)@ == Seq::<(u64, u64)>::empty(),
    {
        self.data.clear();
        self.max_queue.clear();
        self.records = Ghost(Seq::empty());
    }

    /// The front of the auxiliary deque is the maximum sample value: the law
    /// behind the O(1) `get_max` query.
    proof fn lemma_front_is_max(&self)
        requires
            self.deques_linked(),
            self@.len() > 0,
        ensures
            self.max_queue@.len() > 0,
            self.max_queue@[0] == values_max(self@),
    {
        let d = self.data@;
        let m = self.max_queue@;
        let r = self.records@;
        assert forall|j: int| 0 <= j < d.len() implies d[j].1 <= m[0] by {
            lemma_record_dominates(d, m, r, r.len() - 1, j);
        }
        assert(d[r[0]].1 == m[0]);
        lemma_values_max_eq(d, m[0]);
    }
}

/// Every sample at or before recorded position `k` is bounded by the front of
/// the auxiliary deque.
proof fn lemma_record_dominates(d: Seq<(u64, u64)>, m: Seq<u64>, r: Seq<int>, k: int, j: int)
    requires
        records_sound(d, m, r),
        0 <= k < r.len(),
        0 <= j <= r[k],
    ensures
        d[j].1 <= m[0],
    decreases k,
{
    if gap_low(r, k) < j {
        if j < r[k] {
            assert(d[j].1 < m[k]);
        } else {
            assert(d[j].1 == m[k]);
        }
        assert(m[0] >= m[k]);
    } else {
        assert(k >= 1);
        lemma_record_dominates(d, m, r, k - 1, j);
    }
}

/// Every sample value of a non-empty `s` is bounded by `values_max(s)`, which
/// is itself one of the sample values.
pub proof fn lemma_values_max_bounds(s: Seq<(u64, u64)>)
    requires
        s.len() > 0,
    ensures
        forall|j: int| 0 <= j < s.len() ==> #[trigger] s[j].1 <= values_max(s),
        exists|j: int| 0 <= j < s.len() && #[trigger] s[j].1 == values_max(s),
    decreases s.len(),
{
    if s.len() == 1 {
        assert(s[0].1 == values_max(s));
    } else {
        let t = s.skip(1);
        lemma_values_max_bounds(t);
        assert forall|j: int| 0 <= j < s.len() implies #[trigger] s[j].1 <= values_max(s) by {
            if j >= 1 {
                assert(t[j - 1] == s[j]);
                assert(t[j - 1].1 <= values_max(t));
            }
        }
        if s[0].1 >= values_max(t) {
            assert(s[0].1 == values_max(s));
        } else {
            let jt = choose|jt: int| 0 <= jt < t.len() && #[trigger] t[jt].1 == values_max(t);
            assert(s[jt + 1].1 == values_max(s));
        }
    }
}

/// A value that bounds every sample of `s` and is attained by one of them is
/// exactly `values_max(s)`.
pub proof fn lemma_values_max_eq(s: Seq<(u64, u64)>, v: u64)
    requires
        s.len() > 0,
        forall|j: int| 0 <= j < s.len() ==> #[trigger] s[j].1 <= v,
        exists|j: int| 0 <= j < s.len() && #[trigger] s[j].1 == v,
    ensures
        values_max(s) == v,
{
    lemma_values_max_bounds(s);
    let ja = choose|j: int| 0 <= j < s.len() && #[trigger] s[j].1 == v;
    let jb = choose|j: int| 0 <= j < s.len() && #[trigger] s[j].1 == values_max(s);
    assert(s[ja].1 <= values_max(s));
    assert(s[jb].1 <= v);
}

impl Default for MaxSlidingWindow {
    fn default() -> (w: Self)
        ensures
            w@ == Seq::<(u64, u64)>::empty(),
            w.well_formed(),
            w.cap() == DEFAULT_CAPACITY,
    {
        MaxSlidingWindow::new(DEFAULT_CAPACITY)
    }
}

} // verus!
