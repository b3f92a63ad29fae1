//! Software timer multiplexer: maps any number of logical "wake me at tick T"
//! requests onto the single hardware comparator/alarm.
//!
//! The multiplexer owns the comparator (modelled by [`AlarmComparator`]; the
//! platform layer mirrors it onto the real register). Its invariant: the
//! comparator is programmed and enabled exactly when some alarm is still
//! waiting, the cached `next_wakeup` equals the minimum wake tick over the
//! waiting alarms, and `any_pending` mirrors whether any alarm has fired and
//! awaits draining.

use vstd::prelude::*;
use crate::interrupts::{Mailbox, SystimerTartet0InterruptStatus, systimer_target0_interrupt_get_and_clear};

verus! {

/// Reprogramming the comparator to a tick at or behind "now" is unreliable on
/// the target hardware, so re-arming biases the target this far into the
/// future.
pub const TARGET_GUARD_TICKS: u64 = 250;

#[derive(Debug, Clone, Copy, PartialEq, Eq, Structural)]
pub enum QQAlarmError {
    QueueFull,
    IdNotFound,
}

/// Model of the single hardware comparator/alarm register set. The
/// multiplexer is its sole owner; a thin platform layer mirrors every change
/// onto the device.
#[derive(Debug, Clone, Copy, PartialEq, Eq, Structural)]
pub struct AlarmComparator {
    /// Tick count at which the comparator fires.
    pub target: u64,
    /// Whether the comparator's interrupt line is enabled.
    pub interrupt_enabled: bool,
    /// The latched (raised but not yet acknowledged) interrupt flag.
    pub pending: bool,
}

impl AlarmComparator {
    pub fn new() -> (a: AlarmComparator)
        ensures
            a == (AlarmComparator { target: 0u64, interrupt_enabled: false, pending: false }),
    {
        AlarmComparator { target: 0, interrupt_enabled: false, pending: false }
    }

    pub fn set_target(&mut self, target: u64)
        ensures
            *final(self) == (AlarmComparator { target, ..*old(self) }),
    {
        self.target = target;
    }

    pub fn enable_interrupt(&mut self, enable: bool)
        ensures
            *final(self) == (AlarmComparator { interrupt_enabled: enable, ..*old(self) }),
    {
        self.interrupt_enabled = enable;
    }

    pub fn clear_interrupt(&mut self)
        ensures
            *final(self) == (AlarmComparator { pending: false, ..*old(self) }),
    {
        self.pending = false;
    }
}

#[derive(Debug, Clone, Copy, PartialEq, Eq, Structural)]
pub enum QQAlarmState {
    Waiting,
    Pending,
}

/// One outstanding logical delay.
#[derive(Debug, Clone, Copy, PartialEq, Eq, Structural)]
pub struct QQAlarm {
    pub id: usize,
    pub wake_at: u64,
    pub state: QQAlarmState,
}

pub open spec fn slot_has_id(s: Option<QQAlarm>, id: usize) -> bool {
    s matches Some(a) && a.id == id
}

pub open spec fn is_waiting(s: Option<QQAlarm>) -> bool {
    s matches Some(a) && a.state == QQAlarmState::Waiting
}

pub open spec fn is_pending(s: Option<QQAlarm>) -> bool {
    s matches Some(a) && a.state == QQAlarmState::Pending
}

pub open spec fn contains_id_prefix(q: Seq<Option<QQAlarm>>, k: int, id: usize) -> bool {
    exists|j: int| 0 <= j < k && slot_has_id(#[trigger] q[j], id)
}

/// Whether some slot holds an alarm with the given id.
pub open spec fn contains_id(q: Seq<Option<QQAlarm>>, id: usize) -> bool {
    contains_id_prefix(q, q.len() as int, id)
}

/// The wake tick of the alarm with the given id (meaningful when some slot
/// holds the id and ids are unique).
pub open spec fn wake_of(q: Seq<Option<QQAlarm>>, id: usize) -> u64 {
    let j = choose|j: int| 0 <= j < q.len() && slot_has_id(#[trigger] q[j], id);
    q[j]->0.wake_at
}

/// With unique ids, any slot holding `id` determines `wake_of`.
pub proof fn lemma_wake_of_witness(q: Seq<Option<QQAlarm>>, id: usize, j: int)
    requires
        ids_unique(q),
        0 <= j < q.len(),
        slot_has_id(q[j], id),
    ensures
        contains_id(q, id),
        wake_of(q, id) == q[j]->0.wake_at,
{
    assert(contains_id(q, id));
    let j2 = choose|j2: int| 0 <= j2 < q.len() && slot_has_id(#[trigger] q[j2], id);
    if j2 != j {
        assert(q[j] is Some && q[j2] is Some);
        assert(false);
    }
}

/// No two occupied slots share an id.
pub open spec fn ids_unique(q: Seq<Option<QQAlarm>>) -> bool {
    forall|i: int, j: int|
        0 <= i < j < q.len() && (#[trigger] q[i]) is Some && (#[trigger] q[j]) is Some
            ==> q[i]->0.id != q[j]->0.id
}

pub open spec fn has_empty_slot(q: Seq<Option<QQAlarm>>) -> bool {
    exists|i: int| 0 <= i < q.len() && (#[trigger] q[i]) is None
}

/// Index of the first empty slot.
pub open spec fn first_empty(q: Seq<Option<QQAlarm>>) -> int
    decreases q.len(),
{
    if q.len() == 0 {
        0
    } else if q[0] is None {
        0
    } else {
        1 + first_empty(q.drop_first())
    }
}

/// The smaller of `a` (if any) and `w`.
pub open spec fn merge_min(a: Option<u64>, w: u64) -> Option<u64> {
    match a {
        None => Some(w),
        Some(m) => if w < m {
            Some(w)
        } else {
            Some(m)
        },
    }
}

/// Minimum wake tick over the waiting alarms among the first `k` slots.
pub open spec fn min_waiting_prefix(q: Seq<Option<QQAlarm>>, k: int) -> Option<u64>
    decreases k,
{
    if k <= 0 {
        None
    } else if is_waiting(q[k - 1]) {
        merge_min(min_waiting_prefix(q, k - 1), q[k - 1]->0.wake_at)
    } else {
        min_waiting_prefix(q, k - 1)
    }
}

/// Minimum wake tick over all waiting alarms (`None` when no alarm waits).
pub open spec fn min_waiting(q: Seq<Option<QQAlarm>>) -> Option<u64> {
    min_waiting_prefix(q, q.len() as int)
}

pub open spec fn any_pending_prefix(q: Seq<Option<QQAlarm>>, k: int) -> bool {
    exists|j: int| 0 <= j < k && is_pending(#[trigger] q[j])
}

/// Whether any alarm has fired and awaits draining.
pub open spec fn any_pending_spec(q: Seq<Option<QQAlarm>>) -> bool {
    any_pending_prefix(q, q.len() as int)
}

/// Ids of the pending alarms among the first `k` slots, in slot order.
pub open spec fn pending_ids_prefix(q: Seq<Option<QQAlarm>>, k: int) -> Seq<usize>
    decreases k,
{
    if k <= 0 {
        Seq::empty()
    } else if is_pending(q[k - 1]) {
        pending_ids_prefix(q, k - 1).push(q[k - 1]->0.id)
    } else {
        pending_ids_prefix(q, k - 1)
    }
}

/// Ids of all pending alarms, in slot order.
pub open spec fn pending_ids(q: Seq<Option<QQAlarm>>) -> Seq<usize> {
    pending_ids_prefix(q, q.len() as int)
}

/// The queue with every slot holding `id` cleared (at most one, when ids are
/// unique).
pub open spec fn remove_id(q: Seq<Option<QQAlarm>>, id: usize) -> Seq<Option<QQAlarm>> {
    Seq::new(
        q.len(),
        |j: int|
            if slot_has_id(q[j], id) {
                None
            } else {
                q[j]
            },
    )
}

/// The queue after a hardware-alarm interrupt at tick `now`: every waiting
/// alarm whose wake tick has passed becomes pending.
pub open spec fn fire_due(q: Seq<Option<QQAlarm>>, now: u64) -> Seq<Option<QQAlarm>> {
    Seq::new(
        q.len(),
        |j: int|
            if is_waiting(q[j]) && q[j]->0.wake_at <= now {
                Some(QQAlarm { id: q[j]->0.id, wake_at: q[j]->0.wake_at, state: QQAlarmState::Pending })
            } else {
                q[j]
            },
    )
}

/// The queue with every pending slot cleared.
pub open spec fn drain_pending(q: Seq<Option<QQAlarm>>) -> Seq<Option<QQAlarm>> {
    Seq::new(
        q.len(),
        |j: int|
            if is_pending(q[j]) {
                None
            } else {
                q[j]
            },
    )
}

/// Contract every timer multiplexer offers its client drivers.
pub trait QQAlarmQueue: Sized {
    /// Abstract invariant carried between calls.
    spec fn inv(&self) -> bool;

    /// The outstanding (waiting or pending) alarms: each id with the wake
    /// tick it was registered for.
    spec fn alarms(&self) -> Map<usize, u64>;

    /// Whether a further alarm can be accepted.
    spec fn has_free_slot(&self) -> bool;

    /// Whether the id allocator can hand out another id.
    spec fn can_allocate(&self) -> bool;

    /// The id the next successful `add` returns.
    spec fn fresh_id(&self) -> usize;

    /// Registers a wakeup at tick `wake_at`; returns a fresh id, or
    /// `QueueFull` when every slot is occupied.
    fn add(&mut self, wake_at: u64) -> (r: Result<usize, QQAlarmError>)
        requires
            old(self).inv(),
            old(self).can_allocate(),
        ensures
            final(self).inv(),
            r is Ok <==> old(self).has_free_slot(),
            r matches Ok(id) ==> id == old(self).fresh_id() && !old(self).alarms().dom().contains(
                id,
            ) && final(self).alarms() == old(self).alarms().insert(id, wake_at),
            r is Err ==> r == Err::<usize, QQAlarmError>(QQAlarmError::QueueFull) && final(self).alarms() == old(self).alarms(),
            final(self).fresh_id() >= old(self).fresh_id(),
            r is Ok ==> final(self).fresh_id() > old(self).fresh_id(),
    ;

    /// Cancels the alarm with the given id; `IdNotFound` when no slot holds
    /// it.
    fn remove(&mut self, id: usize) -> (r: Result<(), QQAlarmError>)
        requires
            old(self).inv(),
        ensures
            final(self).inv(),
            r is Ok <==> old(self).alarms().dom().contains(id),
            r is Ok ==> final(self).alarms() == old(self).alarms().remove(id) && final(self).has_free_slot(),
            r is Err ==> r == Err::<(), QQAlarmError>(QQAlarmError::IdNotFound) && *final(self)
                == *old(self),
            final(self).fresh_id() == old(self).fresh_id(),
            final(self).can_allocate() == old(self).can_allocate(),
    ;
}

/// Simple timer multiplexer: a fixed array of optional slots scanned
/// linearly, with no further data structure.
pub struct DumbQQAlarmQueue<const N: usize> {
    /// Model of the hardware comparator this multiplexer owns.
    pub alarm: AlarmComparator,
    /// The slot array.
    pub queue: Vec<Option<QQAlarm>>,
    /// Cached minimum wake tick over the waiting slots.
    pub next_wakeup: Option<u64>,
    /// Monotonically increasing id allocator.
    pub next_id: usize,
    /// Mirrors whether any slot is pending.
    pub any_pending: bool,
}

impl<const N: usize> DumbQQAlarmQueue<N> {
    /// Representation invariant (spec section: the comparator is programmed
    /// exactly when a waiting alarm exists, and the caches match the slots).
    pub open spec fn well_formed(&self) -> bool {
        &&& self.queue@.len() == N
        &&& ids_unique(self.queue@)
        &&& forall|i: int|
            0 <= i < N && (#[trigger] self.queue@[i]) is Some ==> self.queue@[i]->0.id
                < self.next_id
        &&& self.next_wakeup == min_waiting(self.queue@)
        &&& self.any_pending == any_pending_spec(self.queue@)
        &&& self.alarm.interrupt_enabled == (self.next_wakeup is Some)
    }

    /// Takes ownership of the hardware comparator; no alarm is outstanding
    /// yet, so its interrupt starts disabled.
    pub fn new(alarm: AlarmComparator) -> (q: Self)
        ensures
            q.well_formed(),
            q.queue@ == Seq::new(N as nat, |i: int| None::<QQAlarm>),
            q.next_id == 0,
            q.next_wakeup is None,
            q.any_pending == false,
            q.alarm == (AlarmComparator { interrupt_enabled: false, ..alarm }),
    {
        let mut queue: Vec<Option<QQAlarm>> = Vec::new();
        while queue.len() < N
            invariant
                queue@.len() <= N,
                forall|i: int| 0 <= i < queue@.len() ==> (#[trigger] queue@[i]) is None,
            decreases N - queue.len(),
        {
            queue.push(None);
        }
        let mut alarm = alarm;
        alarm.enable_interrupt(false);
        let q = DumbQQAlarmQueue {
            alarm,
            queue,
            next_wakeup: None,
            next_id: 0,
            any_pending: false,
        };
        proof {
            lemma_min_waiting_none(q.queue@, N as int);
            assert(q.queue@ =~= Seq::new(N as nat, |i: int| None::<QQAlarm>));
        }
        q
    }
}

/// A prefix with no waiting slot has no minimum.
proof fn lemma_min_waiting_none(q: Seq<Option<QQAlarm>>, k: int)
    requires
        k <= q.len(),
        forall|i: int| 0 <= i < k ==> !is_waiting(#[trigger] q[i]),
    ensures
        min_waiting_prefix(q, k) is None,
    decreases k,
{
    if k > 0 {
        lemma_min_waiting_none(q, k - 1);
    }
}

/// A prefix of all-occupied slots pins down the first empty slot.
proof fn lemma_first_empty(q: Seq<Option<QQAlarm>>, k: int)
    requires
        0 <= k < q.len(),
        q[k] is None,
        forall|j: int| 0 <= j < k ==> (#[trigger] q[j]) is Some,
    ensures
        first_empty(q) == k,
    decreases k,
{
    if k > 0 {
        lemma_first_empty(q.drop_first(), k - 1);
    }
}

/// Updating a slot leaves the minimum over any prefix that ends before it
/// unchanged.
proof fn lemma_min_prefix_update(q: Seq<Option<QQAlarm>>, k: int, s: Option<QQAlarm>, j: int)
    requires
        0 <= k < q.len(),
        0 <= j <= k,
    ensures
        min_waiting_prefix(q.update(k, s), j) == min_waiting_prefix(q, j),
    decreases j,
{
    if j > 0 {
        lemma_min_prefix_update(q, k, s, j - 1);
    }
}

/// Filling an empty slot with a waiting alarm merges its wake tick into the
/// minimum.
proof fn lemma_min_waiting_fill(q: Seq<Option<QQAlarm>>, k: int, a: QQAlarm, j: int)
    requires
        0 <= k < q.len(),
        q[k] is None,
        a.state == QQAlarmState::Waiting,
        k < j <= q.len(),
    ensures
        min_waiting_prefix(q.update(k, Some(a)), j) == merge_min(
            min_waiting_prefix(q, j),
            a.wake_at,
        ),
    decreases j,
{
    if j == k + 1 {
        lemma_min_prefix_update(q, k, Some(a), k);
    } else {
        lemma_min_waiting_fill(q, k, a, j - 1);
    }
}

/// The minimum exists exactly when some slot in the prefix is waiting.
proof fn lemma_min_waiting_some_iff(q: Seq<Option<QQAlarm>>, k: int)
    requires
        0 <= k <= q.len(),
    ensures
        (min_waiting_prefix(q, k) is Some) <==> exists|i: int| 0 <= i < k && is_waiting(
            #[trigger] q[i],
        ),
    decreases k,
{
    if k > 0 {
        lemma_min_waiting_some_iff(q, k - 1);
        if min_waiting_prefix(q, k) is Some {
            if is_waiting(q[k - 1]) {
                assert(exists|i: int| 0 <= i < k && is_waiting(#[trigger] q[i]));
            }
        }
    }
}


/// Two queues whose slots agree on pendingness agree on whether anything is
/// pending.
proof fn lemma_any_pending_pointwise(q1: Seq<Option<QQAlarm>>, q2: Seq<Option<QQAlarm>>, k: int)
    requires
        k <= q1.len(),
        k <= q2.len(),
        forall|j: int| 0 <= j < k ==> is_pending(#[trigger] q1[j]) == is_pending(q2[j]),
    ensures
        any_pending_prefix(q1, k) == any_pending_prefix(q2, k),
{
    if any_pending_prefix(q1, k) {
        let w = choose|j: int| 0 <= j < k && is_pending(#[trigger] q1[j]);
        assert(is_pending(q2[w]));
        assert(any_pending_prefix(q2, k));
    }
    if any_pending_prefix(q2, k) {
        let w = choose|j: int| 0 <= j < k && is_pending(#[trigger] q2[j]);
        assert(is_pending(q1[w]));
        assert(any_pending_prefix(q1, k));
    }
}

impl<const N: usize> DumbQQAlarmQueue<N> {
    /// Registers a wakeup at tick `wake_at` in the first empty slot,
    /// reprogramming the comparator when the new alarm wakes earliest.
    /// Fails with `QueueFull` when every slot is occupied (the id is consumed
    /// regardless).
    pub fn add(&mut self, wake_at: u64) -> (r: Result<usize, QQAlarmError>)
        requires
            old(self).well_formed(),
            old(self).next_id < usize::MAX,
        ensures
            final(self).well_formed(),
            final(self).next_id == old(self).next_id + 1,
            r is Ok <==> has_empty_slot(old(self).queue@),
            r matches Ok(id) ==> {
                &&& id == old(self).next_id
                &&& final(self).queue@ == old(self).queue@.update(
                    first_empty(old(self).queue@),
                    Some(QQAlarm { id, wake_at, state: QQAlarmState::Waiting }),
                )
                &&& final(self).any_pending == old(self).any_pending
                &&& match old(self).next_wakeup {
                    None => final(self).next_wakeup == Some(wake_at) && final(self).alarm == (
                    AlarmComparator { target: wake_at, interrupt_enabled: true, pending: false }),
                    Some(nw) => if wake_at < nw {
                        final(self).next_wakeup == Some(wake_at) && final(self).alarm == (
                        AlarmComparator { target: wake_at, ..old(self).alarm })
                    } else {
                        final(self).next_wakeup == old(self).next_wakeup && final(self).alarm
                            == old(self).alarm
                    },
                }
            },
            r is Err ==> r == Err::<usize, QQAlarmError>(QQAlarmError::QueueFull) && final(self).queue@ == old(self).queue@ && final(self).next_wakeup == old(self).next_wakeup
                && final(self).alarm == old(self).alarm && final(self).any_pending == old(self).any_pending,
    {
        let ghost old_q = self.queue@;
        let id = self.next_id;
        self.next_id = self.next_id + 1;

        let mut k: usize = 0;
        while k < N && self.queue[k].is_some()
            invariant
                self.queue@.len() == N,
                k <= N,
                forall|j: int| 0 <= j < k ==> (#[trigger] self.queue@[j]) is Some,
            decreases N - k,
        {
            k = k + 1;
        }
        if k == N {
            return Err(QQAlarmError::QueueFull);
        }

        let alarm = QQAlarm { id, wake_at, state: QQAlarmState::Waiting };
        self.queue[k] = Some(alarm);
        proof {
            lemma_first_empty(old_q, k as int);
            lemma_min_waiting_fill(old_q, k as int, alarm, N as int);
            lemma_any_pending_pointwise(self.queue@, old_q, N as int);
        }

        let set_target = match self.next_wakeup {
            Some(next_wakeup) => wake_at < next_wakeup,
            None => {
                self.alarm.clear_interrupt();
                self.alarm.enable_interrupt(true);
                true
            },
        };
        if set_target {
            self.alarm.set_target(wake_at);
            self.next_wakeup = Some(wake_at);
        }
        Ok(id)
    }
}

/// Two queues whose slots agree on waiting-ness and wake ticks agree on the
/// minimum over any prefix.
proof fn lemma_min_waiting_pointwise(q1: Seq<Option<QQAlarm>>, q2: Seq<Option<QQAlarm>>, k: int)
    requires
        k <= q1.len(),
        k <= q2.len(),
        forall|j: int|
            0 <= j < k ==> is_waiting(#[trigger] q1[j]) == is_waiting(q2[j]) && (is_waiting(q1[j])
                ==> q1[j]->0.wake_at == q2[j]->0.wake_at),
    ensures
        min_waiting_prefix(q1, k) == min_waiting_prefix(q2, k),
    decreases k,
{
    if k > 0 {
        lemma_min_waiting_pointwise(q1, q2, k - 1);
    }
}

/// The ids a prefix's pending slots carry are exactly the ids of its pending
/// alarms.
proof fn lemma_pending_ids_members(q: Seq<Option<QQAlarm>>, k: int)
    requires
        0 <= k <= q.len(),
    ensures
        forall|x: usize|
            #[trigger] pending_ids_prefix(q, k).contains(x) <==> exists|j: int|
                0 <= j < k && is_pending(#[trigger] q[j]) && q[j]->0.id == x,
    decreases k,
{
    if k > 0 {
        lemma_pending_ids_members(q, k - 1);
        assert forall|x: usize| #[trigger]
            pending_ids_prefix(q, k).contains(x) implies exists|j: int|
            0 <= j < k && is_pending(#[trigger] q[j]) && q[j]->0.id == x by {
            if is_pending(q[k - 1]) && q[k - 1]->0.id == x {
                assert(is_pending(q[k - 1]) && q[k - 1]->0.id == x);
            } else {
                assert(pending_ids_prefix(q, k - 1).contains(x)) by {
                    if is_pending(q[k - 1]) {
                        assert(pending_ids_prefix(q, k) == pending_ids_prefix(q, k - 1).push(
                            q[k - 1]->0.id,
                        ));
                    }
                }
            }
        }
        assert forall|x: usize|
            (exists|j: int| 0 <= j < k && is_pending(#[trigger] q[j]) && q[j]->0.id == x) implies #[trigger]
            pending_ids_prefix(q, k).contains(x) by {
            let j = choose|j: int| 0 <= j < k && is_pending(#[trigger] q[j]) && q[j]->0.id == x;
            if j == k - 1 {
                assert(pending_ids_prefix(q, k).last() == x);
            } else {
                assert(pending_ids_prefix(q, k - 1).contains(x));
                let w = choose|w: int|
                    0 <= w < pending_ids_prefix(q, k - 1).len() && #[trigger] pending_ids_prefix(
                        q,
                        k - 1,
                    )[w] == x;
                if is_pending(q[k - 1]) {
                    assert(pending_ids_prefix(q, k)[w] == x);
                }
            }
        }
    }
}

impl<const N: usize> DumbQQAlarmQueue<N> {
    /// Cancels the alarm with the given id, recomputing the cached minimum
    /// and reprogramming (or disabling) the comparator for the remaining
    /// waiting alarms. Fails with `IdNotFound`, changing nothing, when no
    /// slot holds the id.
    pub fn remove(&mut self, id: usize) -> (r: Result<(), QQAlarmError>)
        requires
            old(self).well_formed(),
        ensures
            final(self).well_formed(),
            final(self).next_id == old(self).next_id,
            r is Ok <==> contains_id(old(self).queue@, id),
            r is Ok ==> {
                &&& final(self).queue@ == remove_id(old(self).queue@, id)
                &&& final(self).next_wakeup == min_waiting(remove_id(old(self).queue@, id))
                &&& final(self).any_pending == any_pending_spec(remove_id(old(self).queue@, id))
                &&& has_empty_slot(final(self).queue@)
                &&& match min_waiting(remove_id(old(self).queue@, id)) {
                    None => final(self).alarm == (AlarmComparator {
                        interrupt_enabled: false,
                        ..old(self).alarm
                    }),
                    Some(m) => final(self).alarm == (if old(self).next_wakeup == Some(m) {
                        old(self).alarm
                    } else {
                        AlarmComparator { target: m, ..old(self).alarm }
                    }),
                }
            },
            r is Err ==> r == Err::<(), QQAlarmError>(QQAlarmError::IdNotFound) && *final(self)
                == *old(self),
    {
        let ghost old_q = self.queue@;
        let ghost target_q = remove_id(old_q, id);

        let mut found_at: Option<usize> = None;
        let mut min_wake: Option<u64> = None;
        let mut any_pending = false;

        let mut i: usize = 0;
        while i < N
            invariant
                *self == *old(self),
                old(self).well_formed(),
                old_q == self.queue@,
                target_q == remove_id(old_q, id),
                i <= N,
                match found_at {
                    Some(k) => k < i && slot_has_id(old_q[k as int], id),
                    None => !contains_id_prefix(old_q, i as int, id),
                },
                min_wake == min_waiting_prefix(target_q, i as int),
                any_pending == any_pending_prefix(target_q, i as int),
            decreases N - i,
        {
            let s = self.queue[i];
            proof {
                assert(target_q[i as int] == if slot_has_id(old_q[i as int], id) {
                    None::<QQAlarm>
                } else {
                    old_q[i as int]
                });
            }
            match s {
                Some(a) => {
                    if a.id == id {
                        found_at = Some(i);
                    } else {
                        match a.state {
                            QQAlarmState::Waiting => {
                                min_wake = match min_wake {
                                    None => Some(a.wake_at),
                                    Some(m) => if a.wake_at < m {
                                        Some(a.wake_at)
                                    } else {
                                        Some(m)
                                    },
                                };
                            },
                            QQAlarmState::Pending => {
                                any_pending = true;
                            },
                        }
                    }
                },
                None => {},
            }
            i = i + 1;
        }

        let k = match found_at {
            None => {
                return Err(QQAlarmError::IdNotFound);
            },
            Some(k) => k,
        };

        self.queue[k] = None;
        proof {
            assert forall|j: int| 0 <= j < N && j != k implies !slot_has_id(
                #[trigger] old_q[j],
                id,
            ) by {
                assert(slot_has_id(old_q[k as int], id));
            }
            assert(self.queue@ =~= target_q);
            lemma_min_waiting_some_iff(target_q, N as int);
            if min_waiting_prefix(target_q, N as int) is Some {
                let w = choose|j: int| 0 <= j < N && is_waiting(#[trigger] target_q[j]);
                assert(is_waiting(old_q[w]));
                lemma_min_waiting_some_iff(old_q, N as int);
            }
        }

        match min_wake {
            None => {
                if self.next_wakeup.is_some() {
                    self.alarm.enable_interrupt(false);
                    self.next_wakeup = None;
                }
            },
            Some(m) => {
                let nw = self.next_wakeup.unwrap();
                if m != nw {
                    self.alarm.set_target(m);
                    self.next_wakeup = Some(m);
                }
            },
        }
        self.any_pending = any_pending;
        proof {
            assert forall|i2: int, j2: int|
                0 <= i2 < j2 < N && (#[trigger] self.queue@[i2]) is Some && (
                #[trigger] self.queue@[j2]) is Some implies self.queue@[i2]->0.id
                != self.queue@[j2]->0.id by {
                assert(self.queue@[i2] == old_q[i2] && self.queue@[j2] == old_q[j2]);
            }
        }
        Ok(())
    }

    /// Handles a hardware-alarm interrupt recorded in the systimer mailbox:
    /// drains the mailbox bit, marks every due waiting alarm pending, and
    /// re-arms the comparator for the remaining waiters (biased by
    /// `TARGET_GUARD_TICKS`), or disables it when none remains. Returns
    /// whether an interrupt was handled.
    pub fn update(&mut self, now: u64, systimer_mailbox: &mut Mailbox) -> (did: bool)
        requires
            old(self).well_formed(),
            now <= u64::MAX - TARGET_GUARD_TICKS,
        ensures
            final(self).well_formed(),
            final(systimer_mailbox)@ == old(systimer_mailbox)@
                & !SystimerTartet0InterruptStatus::TARGET,
            did == (old(systimer_mailbox)@ & SystimerTartet0InterruptStatus::TARGET != 0),
            final(self).next_id == old(self).next_id,
            !did ==> *final(self) == *old(self),
            did ==> {
                &&& final(self).queue@ == fire_due(old(self).queue@, now)
                &&& final(self).next_wakeup == min_waiting(fire_due(old(self).queue@, now))
                &&& final(self).any_pending == any_pending_spec(fire_due(old(self).queue@, now))
                &&& match min_waiting(fire_due(old(self).queue@, now)) {
                    Some(m) => final(self).alarm == (AlarmComparator {
                        target: if now + TARGET_GUARD_TICKS > m {
                            (now + TARGET_GUARD_TICKS) as u64
                        } else {
                            m
                        },
                        ..old(self).alarm
                    }),
                    None => final(self).alarm == (AlarmComparator {
                        interrupt_enabled: false,
                        ..old(self).alarm
                    }),
                }
            },
    {
        let pending = systimer_target0_interrupt_get_and_clear(
            systimer_mailbox,
            SystimerTartet0InterruptStatus::from_bits_truncate(
                SystimerTartet0InterruptStatus::TARGET,
            ),
        );
        proof {
            let b = old(systimer_mailbox)@;
            assert(1u32 & 1u32 == 1u32) by (bit_vector);
            assert(b & 1u32 & 1u32 == b & 1u32) by (bit_vector);
        }
        if pending.is_empty() {
            return false;
        }

        let ghost old_q = self.queue@;
        let ghost fired = fire_due(old_q, now);
        let mut min_wake: Option<u64> = None;
        let mut i: usize = 0;
        while i < N
            invariant
                old(self).well_formed(),
                self.queue@.len() == N,
                old_q.len() == N,
                old_q == old(self).queue@,
                fired == fire_due(old_q, now),
                i <= N,
                forall|j: int|
                    0 <= j < N ==> #[trigger] self.queue@[j] == if j < i {
                        fired[j]
                    } else {
                        old_q[j]
                    },
                min_wake == min_waiting_prefix(fired, i as int),
                self.any_pending == (any_pending_spec(old_q) || any_pending_prefix(
                    fired,
                    i as int,
                )),
                self.alarm == old(self).alarm,
                self.next_wakeup == old(self).next_wakeup,
                self.next_id == old(self).next_id,
            decreases N - i,
        {
            let s = self.queue[i];
            match s {
                Some(a) => {
                    if a.state == QQAlarmState::Waiting {
                        if a.wake_at <= now {
                            self.any_pending = true;
                            self.queue[i] = Some(
                                QQAlarm { id: a.id, wake_at: a.wake_at, state: QQAlarmState::Pending },
                            );
                        } else {
                            min_wake = match min_wake {
                                None => Some(a.wake_at),
                                Some(m) => if a.wake_at < m {
                                    Some(a.wake_at)
                                } else {
                                    Some(m)
                                },
                            };
                        }
                    }
                },
                None => {},
            }
            i = i + 1;
        }

        self.next_wakeup = min_wake;
        match min_wake {
            Some(m) => {
                let guard = now + TARGET_GUARD_TICKS;
                let t = if guard > m {
                    guard
                } else {
                    m
                };
                self.alarm.set_target(t);
            },
            None => {
                self.alarm.enable_interrupt(false);
            },
        }

        proof {
            assert(self.queue@ =~= fired);
            assert forall|i2: int, j2: int|
                0 <= i2 < j2 < N && (#[trigger] fired[i2]) is Some && (#[trigger] fired[j2]) is Some implies fired[i2]->0.id
                != fired[j2]->0.id by {
                assert(old_q[i2] is Some && old_q[j2] is Some);
                assert(fired[i2]->0.id == old_q[i2]->0.id && fired[j2]->0.id == old_q[j2]->0.id);
            }
            if any_pending_spec(old_q) {
                let w = choose|j: int| 0 <= j < N && is_pending(#[trigger] old_q[j]);
                assert(is_pending(fired[w]));
            }
            lemma_min_waiting_some_iff(fired, N as int);
            if min_waiting_prefix(fired, N as int) is Some {
                let w = choose|j: int| 0 <= j < N && is_waiting(#[trigger] fired[j]);
                assert(is_waiting(old_q[w]));
                lemma_min_waiting_some_iff(old_q, N as int);
            }
        }
        true
    }

    /// Drains every pending alarm: returns their ids in slot order and frees
    /// their slots, or returns `None` (cheaply, without scanning) when
    /// nothing is pending. Waiting alarms and the comparator are untouched,
    /// and every drained id is gone for good: a later `remove` on it reports
    /// `IdNotFound`.
    pub fn consume_pending(&mut self) -> (r: Option<Vec<usize>>)
        requires
            old(self).well_formed(),
        ensures
            final(self).well_formed(),
            final(self).next_id == old(self).next_id,
            r is Some <==> old(self).any_pending,
            r is None ==> *final(self) == *old(self),
            r matches Some(ids) ==> {
                &&& ids@ == pending_ids(old(self).queue@)
                &&& final(self).queue@ == drain_pending(old(self).queue@)
                &&& final(self).any_pending == false
                &&& final(self).next_wakeup == old(self).next_wakeup
                &&& final(self).alarm == old(self).alarm
                &&& forall|x: usize|
                    ids@.contains(x) ==> !contains_id(final(self).queue@, x)
            },
    {
        if !self.any_pending {
            return None;
        }
        let ghost old_q = self.queue@;
        let ghost drained = drain_pending(old_q);
        let mut ids: Vec<usize> = Vec::new();
        let mut i: usize = 0;
        while i < N
            invariant
                old(self).well_formed(),
                self.queue@.len() == N,
                old_q.len() == N,
                old_q == old(self).queue@,
                drained == drain_pending(old_q),
                i <= N,
                forall|j: int|
                    0 <= j < N ==> #[trigger] self.queue@[j] == if j < i {
                        drained[j]
                    } else {
                        old_q[j]
                    },
                ids@ == pending_ids_prefix(old_q, i as int),
                self.alarm == old(self).alarm,
                self.next_wakeup == old(self).next_wakeup,
                self.next_id == old(self).next_id,
                self.any_pending == old(self).any_pending,
            decreases N - i,
        {
            let s = self.queue[i];
            match s {
                Some(a) => {
                    if a.state == QQAlarmState::Pending {
                        ids.push(a.id);
                        self.queue[i] = None;
                    }
                },
                None => {},
            }
            i = i + 1;
        }
        self.any_pending = false;
        proof {
            assert(self.queue@ =~= drained);
            lemma_min_waiting_pointwise(drained, old_q, N as int);
            assert forall|i2: int, j2: int|
                0 <= i2 < j2 < N && (#[trigger] drained[i2]) is Some && (
                #[trigger] drained[j2]) is Some implies drained[i2]->0.id != drained[j2]->0.id by {
                assert(drained[i2] == old_q[i2] && drained[j2] == old_q[j2]);
            }
            lemma_pending_ids_members(old_q, N as int);
            assert forall|x: usize| ids@.contains(x) implies !contains_id(drained, x) by {
                let j = choose|j: int|
                    0 <= j < N && is_pending(#[trigger] old_q[j]) && old_q[j]->0.id == x;
                if contains_id(drained, x) {
                    let j2 = choose|j2: int|
                        0 <= j2 < drained.len() && slot_has_id(#[trigger] drained[j2], x);
                    assert(!is_pending(old_q[j2]) && drained[j2] == old_q[j2]);
                    assert(old_q[j2] is Some && old_q[j] is Some && j != j2);
                }
            }
        }
        Some(ids)
    }
}


/// When an empty slot exists, `first_empty` names a real empty slot.
pub proof fn lemma_first_empty_props(q: Seq<Option<QQAlarm>>)
    requires
        has_empty_slot(q),
    ensures
        0 <= first_empty(q) < q.len(),
        q[first_empty(q)] is None,
    decreases q.len(),
{
    if q.len() > 0 && !(q[0] is None) {
        assert(has_empty_slot(q.drop_first())) by {
            let w = choose|i: int| 0 <= i < q.len() && (#[trigger] q[i]) is None;
            assert(q.drop_first()[w - 1] is None);
        }
        lemma_first_empty_props(q.drop_first());
    }
}

impl<const N: usize> DumbQQAlarmQueue<N> {
    /// Whether a further alarm can be accepted (an empty slot exists).
    pub fn has_space(&self) -> (r: bool)
        requires
            self.well_formed(),
        ensures
            r == has_empty_slot(self.queue@),
    {
        let mut k: usize = 0;
        while k < N && self.queue[k].is_some()
            invariant
                self.queue@.len() == N,
                k <= N,
                forall|j: int| 0 <= j < k ==> (#[trigger] self.queue@[j]) is Some,
            decreases N - k,
        {
            k = k + 1;
        }
        k < N
    }
}

/// Strict increase of returned ids over any history of operations. Every
/// contract keeps the allocator monotone: a successful `add` returns the
/// current `fresh_id` and leaves it strictly higher, and `remove`, `update`
/// and `consume_pending` all leave it unchanged. This lemma is the induction
/// step over such a history: an id returned by an earlier `add` lies below
/// the allocator value any later state carries, so a later `add` — which
/// returns that value — hands out a strictly greater id.
pub proof fn lemma_returned_ids_strictly_increase(
    id1: usize,
    fresh_after_first_add: usize,
    fresh_at_second_add: usize,
    id2: usize,
)
    requires
        id1 < fresh_after_first_add,
        fresh_after_first_add <= fresh_at_second_add,
        id2 == fresh_at_second_add,
    ensures
        id2 > id1,
{
}

/// Id uniqueness and freshness: every id stored in a well-formed multiplexer
/// is strictly below `next_id`, the id the next `add` returns; since `add`
/// always advances `next_id`, returned ids strictly increase and are never
/// reused.
pub proof fn lemma_ids_never_reused<const N: usize>(q: &DumbQQAlarmQueue<N>)
    requires
        q.well_formed(),
    ensures
        forall|id: usize| contains_id(q.queue@, id) ==> id < q.next_id,
{
    assert forall|id: usize| contains_id(q.queue@, id) implies id < q.next_id by {
        let j = choose|j: int| 0 <= j < q.queue@.len() && slot_has_id(#[trigger] q.queue@[j], id);
        assert(q.queue@[j] is Some);
    }
}

/// Liveness of draining: in a well-formed multiplexer the drained ids are
/// distinct, so `consume_pending` yields each fired alarm exactly once.
pub proof fn lemma_pending_ids_distinct<const N: usize>(q: &DumbQQAlarmQueue<N>)
    requires
        q.well_formed(),
    ensures
        forall|i: int, j: int|
            0 <= i < j < pending_ids(q.queue@).len() ==> #[trigger] pending_ids(q.queue@)[i]
                != #[trigger] pending_ids(q.queue@)[j],
{
    lemma_pending_ids_prefix_distinct(q.queue@, q.queue@.len() as int);
}

proof fn lemma_pending_ids_prefix_distinct(q: Seq<Option<QQAlarm>>, k: int)
    requires
        0 <= k <= q.len(),
        ids_unique(q),
    ensures
        forall|i: int, j: int|
            0 <= i < j < pending_ids_prefix(q, k).len() ==> #[trigger] pending_ids_prefix(q, k)[i]
                != #[trigger] pending_ids_prefix(q, k)[j],
        forall|x: usize|
            #[trigger] pending_ids_prefix(q, k).contains(x) ==> exists|j: int|
                0 <= j < k && is_pending(#[trigger] q[j]) && q[j]->0.id == x,
    decreases k,
{
    lemma_pending_ids_members(q, k);
    if k > 0 {
        lemma_pending_ids_prefix_distinct(q, k - 1);
        lemma_pending_ids_members(q, k - 1);
        if is_pending(q[k - 1]) {
            let ids = pending_ids_prefix(q, k);
            let prev = pending_ids_prefix(q, k - 1);
            assert forall|i: int, j: int| 0 <= i < j < ids.len() implies #[trigger] ids[i]
                != #[trigger] ids[j] by {
                if j == ids.len() - 1 {
                    assert(prev[i] == ids[i]);
                    if ids[i] == q[k - 1]->0.id {
                        assert(prev.contains(prev[i])) by {
                            assert(prev[i] == prev[i]);
                        }
                        let w = choose|w: int|
                            0 <= w < k - 1 && is_pending(#[trigger] q[w]) && q[w]->0.id == prev[i];
                        assert(q[w] is Some && q[k - 1] is Some);
                        assert(q[w]->0.id != q[k - 1]->0.id);
                        assert(false);
                    }
                    assert(ids[j] == q[k - 1]->0.id);
                } else {
                    assert(prev[i] == ids[i] && prev[j] == ids[j]);
                }
            }
        } else {
            assert(pending_ids_prefix(q, k) == pending_ids_prefix(q, k - 1));
            let ids = pending_ids_prefix(q, k);
            assert forall|i: int, j: int| 0 <= i < j < ids.len() implies #[trigger] ids[i]
                != #[trigger] ids[j] by {
                assert(pending_ids_prefix(q, k - 1)[i] != pending_ids_prefix(q, k - 1)[j]);
            }
        }
    } else {
        assert(pending_ids_prefix(q, k).len() == 0);
    }
}

impl<const N: usize> QQAlarmQueue for DumbQQAlarmQueue<N> {
    open spec fn inv(&self) -> bool {
        self.well_formed()
    }

    open spec fn alarms(&self) -> Map<usize, u64> {
        Map::new(|id: usize| contains_id(self.queue@, id), |id: usize| wake_of(self.queue@, id))
    }

    open spec fn has_free_slot(&self) -> bool {
        has_empty_slot(self.queue@)
    }

    open spec fn can_allocate(&self) -> bool {
        self.next_id < usize::MAX
    }

    open spec fn fresh_id(&self) -> usize {
        self.next_id
    }

    fn add(&mut self, wake_at: u64) -> (r: Result<usize, QQAlarmError>) {
        let ghost old_q = self.queue@;
        let ghost old_nid = self.next_id;
        let r = DumbQQAlarmQueue::add(self, wake_at);
        proof {
            if r is Ok {
                let id = r->Ok_0;
                let k = first_empty(old_q);
                lemma_first_empty_props(old_q);
                assert(self.queue@ == old_q.update(
                    k,
                    Some(QQAlarm { id, wake_at, state: QQAlarmState::Waiting }),
                ));
                assert forall|x: usize| contains_id(self.queue@, x) implies contains_id(old_q, x)
                    || x == id by {
                    let j = choose|j: int|
                        0 <= j < self.queue@.len() && slot_has_id(#[trigger] self.queue@[j], x);
                    if j != k {
                        assert(slot_has_id(old_q[j], x));
                    }
                }
                assert forall|x: usize| contains_id(old_q, x) || x == id implies contains_id(
                    self.queue@,
                    x,
                ) by {
                    if x == id {
                        assert(slot_has_id(self.queue@[k], x));
                    } else {
                        let j = choose|j: int|
                            0 <= j < old_q.len() && slot_has_id(#[trigger] old_q[j], x);
                        assert(old_q[j] is Some);
                        assert(j != k);
                        assert(slot_has_id(self.queue@[j], x));
                    }
                }
                if contains_id(old_q, id) {
                    let j = choose|j: int|
                        0 <= j < old_q.len() && slot_has_id(#[trigger] old_q[j], id);
                    assert(old_q[j] is Some);
                    assert(false);
                }
                assert forall|x: usize| self.alarms().dom().contains(x) implies #[trigger] self.alarms()[x]
                    == old(self).alarms().insert(id, wake_at)[x] by {
                    if x == id {
                        assert(slot_has_id(self.queue@[k], id));
                        lemma_wake_of_witness(self.queue@, id, k);
                    } else {
                        let j = choose|j: int|
                            0 <= j < old_q.len() && slot_has_id(#[trigger] old_q[j], x);
                        assert(slot_has_id(self.queue@[j], x));
                        lemma_wake_of_witness(self.queue@, x, j);
                        lemma_wake_of_witness(old_q, x, j);
                    }
                }
                assert(self.alarms() =~= old(self).alarms().insert(id, wake_at));
            } else {
                assert(self.alarms() =~= old(self).alarms());
            }
        }
        r
    }

    fn remove(&mut self, id: usize) -> (r: Result<(), QQAlarmError>) {
        let ghost old_q = self.queue@;
        let r = DumbQQAlarmQueue::remove(self, id);
        proof {
            if r is Ok {
                assert forall|x: usize| contains_id(self.queue@, x) implies contains_id(old_q, x)
                    && x != id by {
                    let j = choose|j: int|
                        0 <= j < self.queue@.len() && slot_has_id(#[trigger] self.queue@[j], x);
                    assert(!slot_has_id(old_q[j], id) && self.queue@[j] == old_q[j]);
                }
                assert forall|x: usize| contains_id(old_q, x) && x != id implies contains_id(
                    self.queue@,
                    x,
                ) by {
                    let j = choose|j: int|
                        0 <= j < old_q.len() && slot_has_id(#[trigger] old_q[j], x);
                    assert(self.queue@[j] == old_q[j]);
                }
                assert forall|x: usize| self.alarms().dom().contains(x) implies #[trigger] self.alarms()[x]
                    == old(self).alarms().remove(id)[x] by {
                    let j = choose|j: int|
                        0 <= j < self.queue@.len() && slot_has_id(#[trigger] self.queue@[j], x);
                    assert(slot_has_id(old_q[j], x));
                    lemma_wake_of_witness(self.queue@, x, j);
                    lemma_wake_of_witness(old_q, x, j);
                }
                assert(self.alarms() =~= old(self).alarms().remove(id));
            }
        }
        r
    }
}

} // verus!
