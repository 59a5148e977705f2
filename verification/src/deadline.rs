//! The deadline queue: which task is to be woken at which tick, and what the
//! one hardware compare interrupt has to be set to for the nearest of them.

use vstd::prelude::*;
use vstd::multiset::Multiset;
use vstd::seq_lib::to_multiset_build;
use crate::executor::{room, wake_task, ReadyQueue, READY_CAPACITY};
use crate::fault::Fault;

verus! {

/// How many deadlines can be outstanding at once.
pub const MAX_DEADLINES: usize = 4;

/// The number of ticks in one epoch of the 24-bit hardware counter.
pub const TICKS_PER_EPOCH: u64 = 0x100_0000;

/// What the hardware compare interrupt is set to.
#[derive(Clone, Copy, Debug, PartialEq, Eq, Structural)]
pub enum Compare {
    /// The compare interrupt is off.
    Disabled,
    /// The compare interrupt is on and fires when the counter reaches the value.
    Armed(u32),
}

/// A min-heap of `(deadline, task id)` pairs with room for 4 of them, kept in
/// a `heapless::BinaryHeap`.
///
/// Verus does not look inside; what the heap holds is [`heap_items`].
#[verifier::external_body]
pub struct DeadlineHeap {
    heap: heapless::binary_heap::BinaryHeap<(u64, usize), heapless::binary_heap::Min, 4>,
}

/// The pairs in the heap. Equal pairs may occur more than once.
pub uninterp spec fn heap_items(h: DeadlineHeap) -> Multiset<(u64, usize)>;

/// The order of the pairs: by deadline, then by task identifier.
pub open spec fn entry_le(a: (u64, usize), b: (u64, usize)) -> bool {
    a.0 < b.0 || (a.0 == b.0 && a.1 <= b.1)
}

/// `e` is in `m` and no pair in `m` comes before it.
pub open spec fn is_earliest(m: Multiset<(u64, usize)>, e: (u64, usize)) -> bool {
    m.count(e) > 0 && forall|o: (u64, usize)| m.count(o) > 0 ==> entry_le(e, o)
}

/// `heapless::BinaryHeap::new`: a heap that holds nothing.
#[verifier::external_body]
fn heap_new() -> (h: DeadlineHeap)
    ensures
        heap_items(h) == Multiset::<(u64, usize)>::empty(),
{
    DeadlineHeap { heap: heapless::binary_heap::BinaryHeap::new() }
}

/// `heapless::BinaryHeap::peek` on a min-heap: a copy of the smallest pair,
/// or `None` from an empty heap.
#[verifier::external_body]
fn heap_peek(h: &DeadlineHeap) -> (r: Option<(u64, usize)>)
    ensures
        r is None <==> heap_items(*h).len() == 0,
        r is Some ==> is_earliest(heap_items(*h), r->Some_0),
{
    h.heap.peek().copied()
}

/// `heapless::BinaryHeap::push`: adds `item` while fewer than 4 pairs are
/// held; hands `item` back and changes nothing otherwise.
#[verifier::external_body]
fn heap_push(h: &mut DeadlineHeap, item: (u64, usize)) -> (r: Result<(), (u64, usize)>)
    ensures
        r is Ok <==> heap_items(*old(h)).len() < 4,
        r is Ok ==> heap_items(*final(h)) == heap_items(*old(h)).insert(item),
        r is Err ==> r->Err_0 == item && heap_items(*final(h)) == heap_items(*old(h)),
{
    h.heap.push(item)
}

/// `heapless::BinaryHeap::pop` on a min-heap: removes one occurrence of the
/// smallest pair and returns it, or returns `None` from an empty heap.
#[verifier::external_body]
fn heap_pop(h: &mut DeadlineHeap) -> (r: Option<(u64, usize)>)
    ensures
        r is None <==> heap_items(*old(h)).len() == 0,
        r is None ==> heap_items(*final(h)) == heap_items(*old(h)),
        r is Some ==> is_earliest(heap_items(*old(h)), r->Some_0)
            && heap_items(*final(h)) == heap_items(*old(h)).remove(r->Some_0),
{
    h.heap.pop()
}

/// The pair that is served first: the one no other pair comes before.
pub open spec fn earliest(m: Multiset<(u64, usize)>) -> (u64, usize) {
    choose|e: (u64, usize)| is_earliest(m, e)
}

/// Every non-empty multiset of pairs has an earliest pair.
pub proof fn lemma_earliest_exists(m: Multiset<(u64, usize)>)
    requires
        m.len() > 0,
    ensures
        is_earliest(m, earliest(m)),
    decreases m.len(),
{
    let x = m.choose();
    let rest = m.remove(x);
    if rest.len() == 0 {
        assert forall|o: (u64, usize)| m.count(o) > 0 implies entry_le(x, o) by {
            if o != x {
                assert(rest.count(o) > 0);
            }
        }
        assert(is_earliest(m, x));
    } else {
        lemma_earliest_exists(rest);
        let y = earliest(rest);
        let least = if entry_le(x, y) { x } else { y };
        assert forall|o: (u64, usize)| m.count(o) > 0 implies entry_le(least, o) by {
            if o != x {
                assert(entry_le(y, o));
            }
        }
        assert(is_earliest(m, least));
    }
}

/// The earliest pair is determined by the multiset.
pub proof fn lemma_earliest_unique(m: Multiset<(u64, usize)>, e: (u64, usize))
    requires
        is_earliest(m, e),
    ensures
        earliest(m) == e,
{
    let c = earliest(m);
    assert(entry_le(c, e) && entry_le(e, c));
}

/// The pairs whose deadline is at or before `now`, the earliest first.
pub open spec fn due_in_order(m: Multiset<(u64, usize)>, now: u64) -> Seq<(u64, usize)>
    decreases m.len(),
{
    if m.len() > 0 && earliest(m).0 <= now {
        proof {
            lemma_earliest_exists(m);
        }
        seq![earliest(m)] + due_in_order(m.remove(earliest(m)), now)
    } else {
        Seq::empty()
    }
}

/// The task identifiers of a sequence of pairs.
pub open spec fn tasks_of(s: Seq<(u64, usize)>) -> Seq<usize> {
    Seq::new(s.len(), |i: int| s[i].1)
}

/// The pairs that a service at `now` takes out of the queue and wakes: the
/// due ones, earliest first, as far as the ready queue has room.
pub open spec fn served(m: Multiset<(u64, usize)>, ready_len: nat, now: u64) -> Seq<(u64, usize)> {
    let due = due_in_order(m, now);
    if due.len() <= room(ready_len) {
        due
    } else {
        due.take(room(ready_len) as int)
    }
}

/// A service at `now` meets a full ready queue before every due pair is woken.
pub open spec fn service_faults(m: Multiset<(u64, usize)>, ready_len: nat, now: u64) -> bool {
    due_in_order(m, now).len() > room(ready_len)
}

/// What the compare interrupt is set to once no pair in `m` is due: armed
/// at the low 24 bits of the earliest deadline if that lies in the epoch of
/// `now`, off if it lies in a later epoch or if there is no deadline at all.
pub open spec fn compare_for(m: Multiset<(u64, usize)>, now: u64) -> Compare {
    if m.len() > 0 && earliest(m).0 > now && earliest(m).0 / TICKS_PER_EPOCH == now / TICKS_PER_EPOCH {
        Compare::Armed((earliest(m).0 % TICKS_PER_EPOCH) as u32)
    } else {
        Compare::Disabled
    }
}

/// The deadlines that a service at `now` leaves in the queue.
pub open spec fn deadlines_after_service(m: Multiset<(u64, usize)>, ready_len: nat, now: u64) -> Multiset<(u64, usize)> {
    m.sub(served(m, ready_len, now).to_multiset())
}

/// The ready queue after a service at `now`: the tasks of the served pairs
/// are appended in the order in which the pairs were served.
pub open spec fn ready_after_service(m: Multiset<(u64, usize)>, ready: Seq<usize>, now: u64) -> Seq<usize> {
    ready + tasks_of(served(m, ready.len(), now))
}

/// The compare setting after a service at `now`: unchanged if the service
/// meets a fault, else the setting for the deadlines that are left.
pub open spec fn compare_after_service(m: Multiset<(u64, usize)>, compare: Compare, ready_len: nat, now: u64) -> Compare {
    if service_faults(m, ready_len, now) {
        compare
    } else {
        compare_for(deadlines_after_service(m, ready_len, now), now)
    }
}

/// What a service at `now` returns.
pub open spec fn service_result(m: Multiset<(u64, usize)>, ready_len: nat, now: u64) -> Result<(), Fault> {
    if service_faults(m, ready_len, now) {
        Err(Fault::ReadyQueueFull)
    } else {
        Ok(())
    }
}

/// A deadline that is filed into `m` becomes the one to wait for next: the
/// queue was empty, or the deadline is before the earliest one in it.
pub open spec fn becomes_earliest(m: Multiset<(u64, usize)>, deadline: u64) -> bool {
    m.len() == 0 || deadline < earliest(m).0
}

/// Filing the pair into `m` is followed by a service: there is room for the
/// pair and its deadline becomes the earliest.
pub open spec fn serves_on_filing(m: Multiset<(u64, usize)>, deadline: u64) -> bool {
    m.len() < MAX_DEADLINES && becomes_earliest(m, deadline)
}

/// The deadlines after `(deadline, task_id)` was to be filed at tick `now`.
pub open spec fn deadlines_after_filing(
    m: Multiset<(u64, usize)>,
    ready_len: nat,
    deadline: u64,
    task_id: usize,
    now: u64,
) -> Multiset<(u64, usize)> {
    if m.len() >= MAX_DEADLINES {
        m
    } else if becomes_earliest(m, deadline) {
        deadlines_after_service(m.insert((deadline, task_id)), ready_len, now)
    } else {
        m.insert((deadline, task_id))
    }
}

/// The ready queue after `(deadline, task_id)` was to be filed at tick `now`.
pub open spec fn ready_after_filing(
    m: Multiset<(u64, usize)>,
    ready: Seq<usize>,
    deadline: u64,
    task_id: usize,
    now: u64,
) -> Seq<usize> {
    if serves_on_filing(m, deadline) {
        ready_after_service(m.insert((deadline, task_id)), ready, now)
    } else {
        ready
    }
}

/// The compare setting after `(deadline, task_id)` was to be filed at tick `now`.
pub open spec fn compare_after_filing(
    m: Multiset<(u64, usize)>,
    compare: Compare,
    ready_len: nat,
    deadline: u64,
    task_id: usize,
    now: u64,
) -> Compare {
    if serves_on_filing(m, deadline) {
        compare_after_service(m.insert((deadline, task_id)), compare, ready_len, now)
    } else {
        compare
    }
}

/// What filing `(deadline, task_id)` at tick `now` returns.
pub open spec fn filing_result(
    m: Multiset<(u64, usize)>,
    ready_len: nat,
    deadline: u64,
    task_id: usize,
    now: u64,
) -> Result<(), Fault> {
    if m.len() >= MAX_DEADLINES {
        Err(Fault::DeadlineQueueFull)
    } else if becomes_earliest(m, deadline) {
        service_result(m.insert((deadline, task_id)), ready_len, now)
    } else {
        Ok(())
    }
}

/// A pair is due at `now`: its deadline is at or before `now`.
pub open spec fn is_due(now: u64) -> spec_fn((u64, usize)) -> bool {
    |e: (u64, usize)| e.0 <= now
}

/// What [`due_in_order`] is: it holds exactly the pairs of `m` that are due
/// at `now`, each as often as `m` holds it, and it holds them in ascending
/// order.
pub proof fn lemma_due_in_order(m: Multiset<(u64, usize)>, now: u64)
    ensures
        due_in_order(m, now).to_multiset() =~= m.filter(is_due(now)),
        forall|i: int, j: int|
            0 <= i <= j < due_in_order(m, now).len() ==> entry_le(
                #[trigger] due_in_order(m, now)[i],
                #[trigger] due_in_order(m, now)[j],
            ),
    decreases m.len(),
{
    broadcast use vstd::seq_lib::group_to_multiset_ensures;

    let due = due_in_order(m, now);
    if m.len() > 0 {
        lemma_earliest_exists(m);
        let e = earliest(m);
        if e.0 <= now {
            let rest = m.remove(e);
            let tail = due_in_order(rest, now);
            lemma_due_in_order(rest, now);
            vstd::seq_lib::lemma_multiset_commutative(seq![e], tail);
            assert forall|i: int, j: int| 0 <= i <= j < due.len() implies entry_le(
                #[trigger] due[i],
                #[trigger] due[j],
            ) by {
                if j > 0 {
                    assert(rest.filter(is_due(now)).count(tail[j - 1]) > 0);
                }
            }
        } else {
            assert forall|o: (u64, usize)| m.filter(is_due(now)).count(o) == 0 by {
                if m.count(o) > 0 {
                    assert(entry_le(e, o));
                }
            }
        }
    }
}

/// Deadline ordering: of two deadlines that are filed in either order, the
/// task of the earlier one is made ready no later than the task of the later
/// one. Whenever a service takes the later pair out of the queue, it has taken
/// the earlier pair out before it in the same service, so the task of the
/// earlier pair stands in front in the ready queue.
pub proof fn lemma_deadline_ordering(
    m: Multiset<(u64, usize)>,
    earlier: (u64, usize),
    later: (u64, usize),
    ready_len: nat,
    now: u64,
    at: int,
)
    requires
        earlier.0 < later.0,
        0 <= at < served(m.insert(earlier).insert(later), ready_len, now).len(),
        served(m.insert(earlier).insert(later), ready_len, now)[at] == later,
    ensures
        m.insert(earlier).insert(later) =~= m.insert(later).insert(earlier),
        exists|before: int|
            0 <= before < at && #[trigger] served(m.insert(earlier).insert(later), ready_len, now)[before]
                == earlier,
{
    broadcast use vstd::seq_lib::group_to_multiset_ensures;

    let filed = m.insert(earlier).insert(later);
    let due = due_in_order(filed, now);
    let sv = served(filed, ready_len, now);
    lemma_due_in_order(filed, now);
    assert(filed.filter(is_due(now)).count(later) > 0);
    assert(filed.filter(is_due(now)).count(earlier) > 0);
    let before = choose|i: int| 0 <= i < due.len() && due[i] == earlier;
    assert(sv[before] == earlier);
}

/// No lost wakeup, for deadlines: a service at a tick at or after the
/// deadline of a filed pair, with room in the ready queue for all that is
/// due, wakes the task once for each time the pair was filed and leaves no
/// copy of the pair behind to wake it again.
pub proof fn lemma_due_deadline_is_served(m: Multiset<(u64, usize)>, pair: (u64, usize), ready_len: nat, now: u64)
    requires
        pair.0 <= now,
        !service_faults(m, ready_len, now),
    ensures
        served(m, ready_len, now).to_multiset().count(pair) == m.count(pair),
        deadlines_after_service(m, ready_len, now).count(pair) == 0,
{
    lemma_due_in_order(m, now);
}

/// No lost wakeup, at filing: of a pair that is filed without a fault, every
/// copy is either kept in the queue or served at once, and then its task is
/// woken; none is dropped and none is woken twice.
pub proof fn lemma_filed_deadline_is_kept_or_served(
    m: Multiset<(u64, usize)>,
    ready_len: nat,
    deadline: u64,
    task_id: usize,
    now: u64,
)
    requires
        filing_result(m, ready_len, deadline, task_id, now) is Ok,
    ensures
        deadlines_after_filing(m, ready_len, deadline, task_id, now).count((deadline, task_id)) + (if serves_on_filing(
            m,
            deadline,
        ) {
            served(m.insert((deadline, task_id)), ready_len, now).to_multiset().count((deadline, task_id))
        } else {
            0
        }) == m.count((deadline, task_id)) + 1,
{
    let pair = (deadline, task_id);
    let filed = m.insert(pair);
    if serves_on_filing(m, deadline) {
        if deadline <= now {
            lemma_due_deadline_is_served(filed, pair, ready_len, now);
        } else {
            lemma_future_deadline_stays(filed, pair, ready_len, now);
        }
    }
}

/// No early wakeup, for deadlines: a service at a tick before the deadline
/// of a pair does not wake its task and leaves every copy of the pair filed.
pub proof fn lemma_future_deadline_stays(m: Multiset<(u64, usize)>, pair: (u64, usize), ready_len: nat, now: u64)
    requires
        pair.0 > now,
    ensures
        served(m, ready_len, now).to_multiset().count(pair) == 0,
        deadlines_after_service(m, ready_len, now).count(pair) == m.count(pair),
{
    broadcast use vstd::seq_lib::group_to_multiset_ensures;

    lemma_due_in_order(m, now);
    assert(due_in_order(m, now).to_multiset().count(pair) == 0);
}

/// No pair in `m` belongs to `task_id`.
pub open spec fn holds_none_for(m: Multiset<(u64, usize)>, task_id: usize) -> bool {
    forall|e: (u64, usize)| m.count(e) > 0 ==> e.1 != task_id
}

/// The only pair of `task_id` that `m` may hold is the one for `deadline`,
/// and that one at most once.
pub open spec fn holds_only(m: Multiset<(u64, usize)>, task_id: usize, deadline: u64) -> bool {
    forall|e: (u64, usize)| m.count(e) > 0 && e.1 == task_id ==> e.0 == deadline && m.count(e) == 1
}

/// At most one pair in `m` belongs to `task_id`.
pub open spec fn holds_at_most_one_for(m: Multiset<(u64, usize)>, task_id: usize) -> bool {
    forall|a: (u64, usize), b: (u64, usize)|
        m.count(a) > 0 && m.count(b) > 0 && a.1 == task_id && b.1 == task_id ==> a == b && m.count(a) == 1
}

/// No pair of `task_id` in `m` is due at `now`: what was due has been served.
pub open spec fn none_due_for(m: Multiset<(u64, usize)>, task_id: usize, now: u64) -> bool {
    forall|e: (u64, usize)| m.count(e) > 0 && e.1 == task_id ==> e.0 > now
}

/// A service files nothing: it holds no pair more often afterwards than
/// before. So it keeps for every task what held of its deadlines: that it
/// has none, that it has only the one for a given tick, or that it has at
/// most one. A service that meets no fault leaves no deadline behind that is
/// due.
pub proof fn lemma_service_files_nothing(m: Multiset<(u64, usize)>, ready_len: nat, now: u64, task_id: usize)
    ensures
        forall|e: (u64, usize)| deadlines_after_service(m, ready_len, now).count(e) <= m.count(e),
        holds_none_for(m, task_id) ==> holds_none_for(deadlines_after_service(m, ready_len, now), task_id),
        forall|deadline: u64|
            holds_only(m, task_id, deadline) ==> holds_only(deadlines_after_service(m, ready_len, now), task_id, deadline),
        holds_at_most_one_for(m, task_id) ==> holds_at_most_one_for(
            deadlines_after_service(m, ready_len, now),
            task_id,
        ),
        !service_faults(m, ready_len, now) ==> none_due_for(deadlines_after_service(m, ready_len, now), task_id, now),
{
    let after = deadlines_after_service(m, ready_len, now);
    assert forall|e: (u64, usize)| after.count(e) <= m.count(e) by {}
    assert forall|deadline: u64| holds_only(m, task_id, deadline) implies holds_only(after, task_id, deadline) by {
        assert forall|e: (u64, usize)| after.count(e) > 0 && e.1 == task_id implies e.0 == deadline && after.count(e)
            == 1 by {
            assert(m.count(e) > 0);
        }
    }
    if holds_at_most_one_for(m, task_id) {
        assert forall|a: (u64, usize), b: (u64, usize)|
            after.count(a) > 0 && after.count(b) > 0 && a.1 == task_id && b.1 == task_id implies a == b
            && after.count(a) == 1 by {
            assert(m.count(a) > 0 && m.count(b) > 0);
        }
    }
    if !service_faults(m, ready_len, now) {
        assert forall|e: (u64, usize)| after.count(e) > 0 && e.1 == task_id implies e.0 > now by {
            if e.0 <= now {
                lemma_due_deadline_is_served(m, e, ready_len, now);
            }
        }
    }
}

/// Filing adds at most the filed pair, once: afterwards the queue holds no
/// pair more often than it would with the pair simply added. So a task that
/// had no deadline outstanding has at most one afterwards, the filed one, and
/// for every other task what held of its deadlines holds still.
pub proof fn lemma_filing_adds_one_pair(
    m: Multiset<(u64, usize)>,
    ready_len: nat,
    deadline: u64,
    task_id: usize,
    now: u64,
)
    ensures
        forall|e: (u64, usize)|
            deadlines_after_filing(m, ready_len, deadline, task_id, now).count(e) <= m.insert((deadline, task_id)).count(
                e,
            ),
        holds_none_for(m, task_id) ==> holds_only(
            deadlines_after_filing(m, ready_len, deadline, task_id, now),
            task_id,
            deadline,
        ),
        forall|other: usize|
            other != task_id && holds_at_most_one_for(m, other) ==> holds_at_most_one_for(
                deadlines_after_filing(m, ready_len, deadline, task_id, now),
                other,
            ),
        forall|other: usize|
            other != task_id && holds_none_for(m, other) ==> holds_none_for(
                deadlines_after_filing(m, ready_len, deadline, task_id, now),
                other,
            ),
        forall|other: usize, end: u64|
            other != task_id && holds_only(m, other, end) ==> holds_only(
                deadlines_after_filing(m, ready_len, deadline, task_id, now),
                other,
                end,
            ),
{
    let after = deadlines_after_filing(m, ready_len, deadline, task_id, now);
    let filed = m.insert((deadline, task_id));
    assert forall|e: (u64, usize)| after.count(e) <= filed.count(e) by {}
    if holds_none_for(m, task_id) {
        assert forall|e: (u64, usize)| after.count(e) > 0 && e.1 == task_id implies e.0 == deadline && after.count(e)
            == 1 by {
            assert(filed.count(e) > 0);
            if e != (deadline, task_id) {
                assert(m.count(e) > 0);
            }
        }
    }
    assert forall|other: usize| other != task_id && holds_at_most_one_for(m, other) implies holds_at_most_one_for(
        after,
        other,
    ) by {
        assert forall|a: (u64, usize), b: (u64, usize)|
            after.count(a) > 0 && after.count(b) > 0 && a.1 == other && b.1 == other implies a == b && after.count(a)
            == 1 by {
            assert(filed.count(a) > 0 && filed.count(b) > 0);
            assert(m.count(a) > 0 && m.count(b) > 0);
        }
    }
    assert forall|other: usize| other != task_id && holds_none_for(m, other) implies holds_none_for(after, other) by {
        assert forall|e: (u64, usize)| after.count(e) > 0 implies e.1 != other by {
            assert(filed.count(e) > 0);
            if e != (deadline, task_id) {
                assert(m.count(e) > 0);
            }
        }
    }
    assert forall|other: usize, end: u64| other != task_id && holds_only(m, other, end) implies holds_only(
        after,
        other,
        end,
    ) by {
        assert forall|e: (u64, usize)| after.count(e) > 0 && e.1 == other implies e.0 == end && after.count(e) == 1 by {
            assert(filed.count(e) > 0);
            assert(m.count(e) > 0);
        }
    }
}

/// A queue in which each pair belongs to one of `tasks` and each of these
/// tasks has at most one pair holds no more pairs than there are tasks.
pub proof fn lemma_one_deadline_per_task_bounds_the_queue(m: Multiset<(u64, usize)>, tasks: Set<usize>)
    requires
        tasks.finite(),
        forall|e: (u64, usize)| m.count(e) > 0 ==> tasks.contains(e.1),
        forall|task_id: usize| tasks.contains(task_id) ==> holds_at_most_one_for(m, task_id),
    ensures
        m.len() <= tasks.len(),
    decreases m.len(),
{
    if m.len() > 0 {
        let x = m.choose();
        let rest = m.remove(x);
        let others = tasks.remove(x.1);
        assert(holds_at_most_one_for(m, x.1));
        assert forall|e: (u64, usize)| rest.count(e) > 0 implies others.contains(e.1) by {
            assert(m.count(e) > 0);
            if e.1 == x.1 {
                assert(e == x && m.count(x) == 1);
            }
        }
        assert forall|task_id: usize| others.contains(task_id) implies holds_at_most_one_for(rest, task_id) by {
            assert(holds_at_most_one_for(m, task_id));
            assert forall|a: (u64, usize), b: (u64, usize)|
                rest.count(a) > 0 && rest.count(b) > 0 && a.1 == task_id && b.1 == task_id implies a == b
                && rest.count(a) == 1 by {
                assert(m.count(a) > 0 && m.count(b) > 0);
            }
        }
        lemma_one_deadline_per_task_bounds_the_queue(rest, others);
    }
}

/// The capacity policy: while fewer than [`MAX_DEADLINES`] tasks file
/// deadlines and each of them has at most one outstanding, the queue has
/// room: filing a deadline does not meet a full deadline queue.
pub proof fn lemma_one_deadline_per_task_leaves_room(
    m: Multiset<(u64, usize)>,
    tasks: Set<usize>,
    ready_len: nat,
    deadline: u64,
    task_id: usize,
    now: u64,
)
    requires
        tasks.finite(),
        tasks.len() < MAX_DEADLINES,
        forall|e: (u64, usize)| m.count(e) > 0 ==> tasks.contains(e.1),
        forall|id: usize| tasks.contains(id) ==> holds_at_most_one_for(m, id),
    ensures
        m.len() < MAX_DEADLINES,
        filing_result(m, ready_len, deadline, task_id, now) != Err::<(), Fault>(Fault::DeadlineQueueFull),
{
    lemma_one_deadline_per_task_bounds_the_queue(m, tasks);
}

/// The outstanding deadlines and the setting of the compare interrupt that
/// serves the nearest of them.
pub struct DeadlineQueue {
    heap: DeadlineHeap,
    compare: Compare,
}

impl View for DeadlineQueue {
    type V = Multiset<(u64, usize)>;

    closed spec fn view(&self) -> Multiset<(u64, usize)> {
        heap_items(self.heap)
    }
}

impl DeadlineQueue {
    /// The setting that the compare interrupt is to have.
    pub closed spec fn armed(&self) -> Compare {
        self.compare
    }

    /// A queue without deadlines; the compare interrupt is off.
    pub fn new() -> (q: DeadlineQueue)
        ensures
            q@ == Multiset::<(u64, usize)>::empty(),
            q.armed() == Compare::Disabled,
    {
        DeadlineQueue { heap: heap_new(), compare: Compare::Disabled }
    }

    /// The setting that the compare interrupt is to have; the caller writes
    /// it to the hardware after each call that may change it.
    pub fn compare(&self) -> (c: Compare)
        ensures
            c == self.armed(),
    {
        self.compare
    }

    /// The pair that is served next, if the queue holds any.
    pub fn next_deadline(&self) -> (next: Option<(u64, usize)>)
        ensures
            next is None <==> self@.len() == 0,
            next is Some ==> next->Some_0 == earliest(self@) && self@.count(next->Some_0) > 0,
    {
        let next = heap_peek(&self.heap);
        proof {
            if next is Some {
                lemma_earliest_unique(self@, next->Some_0);
            }
        }
        next
    }

    /// Serves the queue at tick `now`.
    ///
    /// As long as the earliest deadline is at or before `now`, its task is
    /// woken and the pair leaves the queue. Then the compare interrupt is set
    /// for what is left, see [`compare_for`].
    ///
    /// If the ready queue is full when a task is to be woken, the service stops
    /// there with a fault: the pairs served so far are gone from the queue and
    /// their tasks are ready, the pair that met the full queue stays, and the
    /// compare setting is as it was.
    pub fn schedule_wakeup(&mut self, now: u64, ready: &mut ReadyQueue) -> (r: Result<(), Fault>)
        ensures
            final(self)@ == deadlines_after_service(old(self)@, old(ready)@.len(), now),
            final(ready)@ == ready_after_service(old(self)@, old(ready)@, now),
            final(self).armed() == compare_after_service(old(self)@, old(self).armed(), old(ready)@.len(), now),
            r == service_result(old(self)@, old(ready)@.len(), now),
    {
        let ghost m0 = self@;
        let ghost r0 = ready@;
        let ghost due = due_in_order(m0, now);
        let ghost mut i: int = 0;
        proof {
            assert(due.take(0).to_multiset() =~= Multiset::<(u64, usize)>::empty()) by {
                broadcast use vstd::seq_lib::group_to_multiset_ensures;
                vstd::multiset::lemma_multiset_empty_len(due.take(0).to_multiset());
            }
        }
        loop
            invariant
                0 <= i <= due.len(),
                i > 0 ==> r0.len() + i <= READY_CAPACITY,
                due == due_in_order(m0, now),
                self@ == m0.sub(due.take(i).to_multiset()),
                ready@ == r0 + tasks_of(due.take(i)),
                due_in_order(self@, now) == due.skip(i),
                self.armed() == old(self).armed(),
                m0 == old(self)@,
                r0 == old(ready)@,
            decreases self@.len(),
        {
            match heap_peek(&self.heap) {
                None => {
                    proof {
                        assert(due.take(i) =~= due);
                    }
                    self.compare = Compare::Disabled;
                    return Ok(());
                },
                Some(e) => {
                    proof {
                        lemma_earliest_unique(self@, e);
                    }
                    if e.0 <= now {
                        let ghost before = self@;
                        assert(due.skip(i) =~= seq![e] + due_in_order(before.remove(e), now));
                        assert(due.skip(i)[0] == e);
                        match wake_task(ready, e.1) {
                            Err(fault) => {
                                return Err(fault);
                            },
                            Ok(()) => {},
                        }
                        let popped = heap_pop(&mut self.heap);
                        proof {
                            lemma_earliest_unique(before, popped->Some_0);
                            assert(due.take(i + 1) =~= due.take(i).push(e));
                            to_multiset_build(due.take(i), e);
                            assert(due.skip(i + 1) =~= due.skip(i).skip(1));
                            i = i + 1;
                        }
                    } else {
                        proof {
                            assert(due.take(i) =~= due);
                        }
                        if e.0 / TICKS_PER_EPOCH == now / TICKS_PER_EPOCH {
                            self.compare = Compare::Armed((e.0 % TICKS_PER_EPOCH) as u32);
                        } else {
                            self.compare = Compare::Disabled;
                        }
                        return Ok(());
                    }
                },
            }
        }
    }

    /// Files the pair `(deadline, task_id)` at tick `now`.
    ///
    /// A queue that already holds [`MAX_DEADLINES`] pairs is a configuration
    /// fault and nothing changes. Otherwise the pair is filed; if its deadline
    /// is now the earliest, the queue is served at once, see
    /// [`DeadlineQueue::schedule_wakeup`], which arms the compare interrupt for
    /// it or, where the deadline has passed already, wakes the task.
    pub fn register(&mut self, deadline: u64, task_id: usize, now: u64, ready: &mut ReadyQueue) -> (r: Result<(), Fault>)
        ensures
            final(self)@ == deadlines_after_filing(old(self)@, old(ready)@.len(), deadline, task_id, now),
            final(ready)@ == ready_after_filing(old(self)@, old(ready)@, deadline, task_id, now),
            final(self).armed() == compare_after_filing(
                old(self)@,
                old(self).armed(),
                old(ready)@.len(),
                deadline,
                task_id,
                now,
            ),
            r == filing_result(old(self)@, old(ready)@.len(), deadline, task_id, now),
    {
        let is_earliest = match heap_peek(&self.heap) {
            Some(next) => {
                proof {
                    lemma_earliest_unique(self@, next);
                }
                deadline < next.0
            },
            None => true,
        };
        match heap_push(&mut self.heap, (deadline, task_id)) {
            Err(_) => Err(Fault::DeadlineQueueFull),
            Ok(()) => {
                if is_earliest {
                    self.schedule_wakeup(now, ready)
                } else {
                    Ok(())
                }
            },
        }
    }
}

} // verus!
