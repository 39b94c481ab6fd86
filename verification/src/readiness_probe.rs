use vstd::prelude::*;
use vstd::rwlock::RwLock;
use vstd::rwlock::RwLockPredicate;

use crate::metrics;
use prometheus_client::metrics::gauge::Gauge;
use std::sync::Arc;
use std::sync::atomic::AtomicI64;

verus! {

/// The character sequences of a list of names, in order.
pub open spec fn names_seq(names: Seq<String>) -> Seq<Seq<char>> {
    Seq::new(names.len(), |i: int| names[i]@)
}

/// Aggregate readiness of a set of condition flags: true iff every flag is
/// set. An empty set of flags is vacuously ready.
pub open spec fn all_ready(flags: Seq<bool>) -> bool {
    forall|i: int| 0 <= i < flags.len() ==> flags[i]
}

/// The value the `up` gauge must carry for a given set of condition flags:
/// 1 when the aggregate readiness holds, 0 otherwise.
pub open spec fn up_value_of(flags: Seq<bool>) -> int {
    if all_ready(flags) {
        1
    } else {
        0
    }
}

/// The empty universe of readiness conditions: a probe over no conditions is
/// ready from construction on. The one value of this type converts into the
/// empty [`ConditionSet`] through `From`.
pub enum AlwaysReady {
    AlwaysReady,
}

/// A closed, finite set of named readiness conditions, fixed at
/// construction. Conditions are addressed by their index in the set; the
/// names appear in the readiness report. The names are distinct, so the
/// set really is a set.
pub struct ConditionSet {
    names: Vec<String>,
}

impl View for ConditionSet {
    type V = Seq<Seq<char>>;

    closed spec fn view(&self) -> Seq<Seq<char>> {
        names_seq(self.names@)
    }
}

impl ConditionSet {
    /// The names are pairwise distinct.
    #[verifier::type_invariant]
    pub closed spec fn wf(&self) -> bool {
        forall|i: int, j: int| 0 <= i < j < self@.len() ==> self@[i] != self@[j]
    }

    /// Builds the set from a list of distinct condition names.
    pub fn new(names: Vec<String>) -> (r: Self)
        requires
            forall|i: int, j: int| 0 <= i < j < names@.len() ==> names@[i]@ != names@[j]@,
        ensures
            r@.len() == names@.len(),
            forall|i: int| 0 <= i < names@.len() ==> r@[i] == names@[i]@,
    {
        let r = ConditionSet { names };
        r
    }

    /// The empty condition set: a probe over it is unconditionally ready.
    pub fn always_ready() -> (r: Self)
        ensures
            r@.len() == 0,
    {
        ConditionSet { names: Vec::new() }
    }

    /// How many conditions the set holds.
    pub fn count(&self) -> (n: usize)
        ensures
            n == self@.len(),
    {
        self.names.len()
    }
}

impl From<AlwaysReady> for ConditionSet {
    /// The zero-condition configuration denotes the empty set.
    fn from(_marker: AlwaysReady) -> (r: ConditionSet)
        ensures
            r@.len() == 0,
    {
        ConditionSet::always_ready()
    }
}

impl vstd::std_specs::convert::FromSpecImpl<AlwaysReady> for ConditionSet {
    open spec fn obeys_from_spec() -> bool {
        false
    }

    open spec fn from_spec(_marker: AlwaysReady) -> ConditionSet {
        arbitrary()
    }
}

/// Every flag is true. Exec counterpart of [`all_ready`].
pub(crate) fn all_true(flags: &Vec<bool>) -> (r: bool)
    ensures
        r == all_ready(flags@),
{
    let mut i: usize = 0;
    while i < flags.len()
        invariant
            i <= flags@.len(),
            forall|j: int| 0 <= j < i ==> flags@[j],
        decreases flags@.len() - i,
    {
        if !flags[i] {
            return false;
        }
        i = i + 1;
    }
    true
}

/// The state guarded by the probe's lock: the condition names, one flag per
/// condition, the derived `up` value, and the gauge that mirrors it for
/// scraping. Names, flags and gauge value are only ever changed together,
/// under the write lock.
struct ProbeCell {
    names: Vec<String>,
    flags: Vec<bool>,
    up: u64,
    gauge: Gauge<i64, AtomicI64>,
}

impl ProbeCell {
    /// The derived `up` value agrees with the flags, and there is one flag
    /// per condition.
    spec fn wf(&self) -> bool {
        &&& self.flags@.len() == self.names@.len()
        &&& self.up == up_value_of(self.flags@)
    }

    /// Recomputes the `up` value from the flags and mirrors it into the
    /// gauge.
    fn update_up_metric(&mut self)
        ensures
            final(self).names == old(self).names,
            final(self).flags == old(self).flags,
            final(self).up == up_value_of(final(self).flags@),
    {
        let ready = all_true(&self.flags);
        if ready {
            self.up = 1;
            metrics::gauge_set(&self.gauge, 1);
        } else {
            self.up = 0;
            metrics::gauge_set(&self.gauge, 0);
        }
    }
}

/// The lock invariant of a probe: whatever state a reader or writer
/// observes, it is well formed and carries exactly the condition names the
/// probe was built over.
struct ProbeInv {
    names: Seq<Seq<char>>,
}

impl RwLockPredicate<ProbeCell> for ProbeInv {
    closed spec fn inv(self, v: ProbeCell) -> bool {
        &&& v.wf()
        &&& names_seq(v.names@) == self.names
    }
}

/// A handle on one probe's shared state. Clones share the same backing
/// state: a condition marked through one handle is seen by every other
/// handle and by the HTTP surface.
pub struct ReadinessProbe {
    state: Arc<RwLock<ProbeCell, ProbeInv>>,
}

impl ReadinessProbe {
    /// The names of the tracked conditions, fixed at construction.
    pub closed spec fn names(&self) -> Seq<Seq<char>> {
        (*self.state).pred().names
    }

    /// Builds a probe over the given conditions, every flag initially
    /// false; over the empty set the probe is ready at once.
    pub fn new(conditions: ConditionSet) -> (r: Self)
        ensures
            r.names() == conditions@,
    {
        let ConditionSet { names } = conditions;
        let n = names.len();
        let mut flags: Vec<bool> = Vec::new();
        while flags.len() < n
            invariant
                flags@.len() <= n,
                forall|j: int| 0 <= j < flags@.len() ==> !flags@[j],
            decreases n - flags@.len(),
        {
            flags.push(false);
        }
        let gauge = metrics::new_gauge();
        let mut cell = ProbeCell { names, flags, up: 0, gauge };
        cell.update_up_metric();
        let ghost inv = ProbeInv { names: names_seq(cell.names@) };
        let lock = RwLock::<ProbeCell, ProbeInv>::new(cell, Ghost(inv));
        ReadinessProbe { state: Arc::new(lock) }
    }

    /// True iff every tracked condition's flag is true in the state this
    /// call observes; with no conditions at all the answer is always true.
    pub fn is_ready(&self) -> (r: bool)
        ensures
            self.names().len() == 0 ==> r,
            exists|flags: Seq<bool>|
                #![auto]
                flags.len() == self.names().len() && r == all_ready(flags),
    {
        let read_handle = self.state.acquire_read();
        let cell = read_handle.borrow();
        let r = all_true(&cell.flags);
        proof {
            assert(cell.flags@.len() == self.names().len() && r == all_ready(cell.flags@));
        }
        read_handle.release_read();
        r
    }

    /// The `up` value in the state this call observes: 1 iff that state was
    /// aggregate-ready, 0 otherwise.
    pub fn up(&self) -> (r: u64)
        ensures
            r == 0 || r == 1,
            self.names().len() == 0 ==> r == 1,
            exists|flags: Seq<bool>|
                #![auto]
                flags.len() == self.names().len() && r == up_value_of(flags),
    {
        let read_handle = self.state.acquire_read();
        let r = read_handle.borrow().up;
        proof {
            let cell = read_handle.view();
            assert(cell.flags@.len() == self.names().len() && r == up_value_of(cell.flags@));
        }
        read_handle.release_read();
        r
    }

    /// What the gauge registered for scraping holds right now. The gauge is
    /// a shared atomic cell, so nothing is promised of the value; the lock
    /// invariant keeps it at the derived `up` value between writes.
    pub fn up_metric(&self) -> i64 {
        let read_handle = self.state.acquire_read();
        let r = metrics::gauge_get(&read_handle.borrow().gauge);
        read_handle.release_read();
        r
    }

    /// A handle on the gauge, for registration into a metrics registry.
    pub(crate) fn up_gauge(&self) -> Gauge<i64, AtomicI64> {
        let read_handle = self.state.acquire_read();
        let g = metrics::gauge_clone(&read_handle.borrow().gauge);
        read_handle.release_read();
        g
    }

    /// A consistent snapshot of the condition names and flags: both come
    /// from the same observed state, so the pair reflects one instant.
    pub fn snapshot(&self) -> (r: (Vec<String>, Vec<bool>))
        ensures
            names_seq(r.0@) == self.names(),
            r.1@.len() == self.names().len(),
    {
        let read_handle = self.state.acquire_read();
        let cell = read_handle.borrow();
        let names = clone_strings(&cell.names);
        let flags = copy_bools(&cell.flags);
        read_handle.release_read();
        (names, flags)
    }

    /// Sets one condition's flag and recomputes the `up` value and gauge in
    /// the same critical section, so no reader can see one without the
    /// other.
    fn set_condition_readiness(&mut self, condition: usize, ready: bool)
        requires
            condition < old(self).names().len(),
        ensures
            *final(self) == *old(self),
    {
        let (mut cell, write_handle) = self.state.acquire_write();
        cell.flags[condition] = ready;
        if ready {
            cell.update_up_metric();
        } else {
            cell.up = 0;
            metrics::gauge_set(&cell.gauge, 0);
            proof {
                assert(!cell.flags@[condition as int]);
                assert(!all_ready(cell.flags@));
            }
        }
        write_handle.release_write(cell);
    }

    /// Marks one condition ready.
    pub fn mark_ready(&mut self, condition: usize)
        requires
            condition < old(self).names().len(),
        ensures
            *final(self) == *old(self),
    {
        self.set_condition_readiness(condition, true);
    }

    /// Marks one condition not ready; aggregate readiness is false from the
    /// moment this write completes.
    pub fn mark_not_ready(&mut self, condition: usize)
        requires
            condition < old(self).names().len(),
        ensures
            *final(self) == *old(self),
    {
        self.set_condition_readiness(condition, false);
    }
}

impl Clone for ReadinessProbe {
    /// The clone shares the same backing state, not a copy of it.
    fn clone(&self) -> (r: Self)
        ensures
            r == *self,
    {
        ReadinessProbe { state: metrics::clone_arc(&self.state) }
    }
}

/// Copies a list of names, preserving the character sequences.
fn clone_strings(v: &Vec<String>) -> (r: Vec<String>)
    ensures
        names_seq(r@) == names_seq(v@),
{
    let mut r: Vec<String> = Vec::new();
    let mut i: usize = 0;
    while i < v.len()
        invariant
            i <= v@.len(),
            r@.len() == i,
            forall|j: int| 0 <= j < i ==> r@[j]@ == v@[j]@,
        decreases v@.len() - i,
    {
        r.push(v[i].clone());
        i = i + 1;
    }
    proof {
        assert(names_seq(r@) =~= names_seq(v@));
    }
    r
}

/// Copies a list of flags.
fn copy_bools(v: &Vec<bool>) -> (r: Vec<bool>)
    ensures
        r@ == v@,
{
    let mut r: Vec<bool> = Vec::new();
    let mut i: usize = 0;
    while i < v.len()
        invariant
            i <= v@.len(),
            r@ == v@.take(i as int),
        decreases v@.len() - i,
    {
        r.push(v[i]);
        proof {
            assert(v@.take(i + 1) =~= v@.take(i as int).push(v@[i as int]));
        }
        i = i + 1;
    }
    proof {
        assert(v@.take(v@.len() as int) =~= v@);
    }
    r
}

/// The flags after a sequence of marks has been applied in order: each mark
/// names a condition and the value its flag is set to.
pub open spec fn apply_marks(flags: Seq<bool>, marks: Seq<(int, bool)>) -> Seq<bool>
    decreases marks.len(),
{
    if marks.len() == 0 {
        flags
    } else {
        apply_marks(flags, marks.drop_last()).update(marks.last().0, marks.last().1)
    }
}

/// Applying in-range marks never changes how many flags there are.
pub proof fn lemma_apply_marks_len(flags: Seq<bool>, marks: Seq<(int, bool)>)
    requires
        forall|i: int| 0 <= i < marks.len() ==> 0 <= (#[trigger] marks[i]).0 < flags.len(),
    ensures
        apply_marks(flags, marks).len() == flags.len(),
    decreases marks.len(),
{
    if marks.len() > 0 {
        let shorter = marks.drop_last();
        assert(forall|i: int| 0 <= i < shorter.len() ==> shorter[i] == marks[i]);
        lemma_apply_marks_len(flags, shorter);
        assert(marks[marks.len() - 1] == marks.last());
    }
}

/// A condition that starts unmet and is never marked ready keeps its flag
/// false through any in-range sequence of marks, so the aggregate stays
/// false: readiness cannot be reached until every condition has been marked
/// ready at least once.
pub proof fn lemma_not_ready_until_marked(flags: Seq<bool>, marks: Seq<(int, bool)>, k: int)
    requires
        0 <= k < flags.len(),
        !flags[k],
        forall|i: int| 0 <= i < marks.len() ==> 0 <= (#[trigger] marks[i]).0 < flags.len(),
        forall|i: int| 0 <= i < marks.len() ==> !((#[trigger] marks[i]).0 == k && marks[i].1),
    ensures
        !apply_marks(flags, marks)[k],
        !all_ready(apply_marks(flags, marks)),
    decreases marks.len(),
{
    lemma_apply_marks_len(flags, marks);
    if marks.len() == 0 {
    } else {
        let shorter = marks.drop_last();
        assert(forall|i: int| 0 <= i < shorter.len() ==> shorter[i] == marks[i]);
        lemma_not_ready_until_marked(flags, shorter, k);
        lemma_apply_marks_len(flags, shorter);
        assert(marks[marks.len() - 1] == marks.last());
    }
}

/// No aggregate readiness while any single condition is unmet.
pub proof fn lemma_unmet_condition_blocks_readiness(flags: Seq<bool>, k: int)
    requires
        0 <= k < flags.len(),
        !flags[k],
    ensures
        !all_ready(flags),
{
}

/// With at least one condition, readiness is reached exactly when the last
/// unmet condition is marked ready: before that mark the aggregate is false,
/// and after it the aggregate is true.
pub proof fn lemma_last_unmet_mark_completes_readiness(flags: Seq<bool>, k: int)
    requires
        0 <= k < flags.len(),
        !flags[k],
        forall|j: int| 0 <= j < flags.len() && j != k ==> flags[j],
    ensures
        !all_ready(flags),
        all_ready(flags.update(k, true)),
{
    assert forall|i: int| 0 <= i < flags.update(k, true).len() implies flags.update(k, true)[i] by {
        if i != k {
            assert(flags[i]);
        }
    }
}

/// A probe over the empty condition set is ready, whatever happens: there is
/// no condition whose flag could be false.
pub proof fn lemma_empty_set_always_ready(flags: Seq<bool>)
    requires
        flags.len() == 0,
    ensures
        all_ready(flags),
        up_value_of(flags) == 1,
{
}

/// Marking any single condition not-ready destroys aggregate readiness and
/// drives the gauge value to 0, however the other flags stand.
pub proof fn lemma_mark_not_ready_breaks_readiness(flags: Seq<bool>, k: int)
    requires
        0 <= k < flags.len(),
    ensures
        !all_ready(flags.update(k, false)),
        up_value_of(flags.update(k, false)) == 0,
{
    assert(!flags.update(k, false)[k]);
}

} // verus!
