//! A model of the locking discipline of the shared record: every operation
//! walks the field locks in one fixed order and holds at most one lock at a
//! time, releasing it before the next is taken. Two such walks can never
//! deadlock, whatever their interleaving.

use vstd::prelude::*;

verus! {

/// One task walking the field locks: the index of the next field it will
/// lock, and the lock it is holding right now, if any.
pub struct TaskWalk {
    pub next: usize,
    pub holding: Option<usize>,
}

/// Two tasks walking the same field locks concurrently.
pub struct LockWalks {
    pub first: TaskWalk,
    pub second: TaskWalk,
}

/// A task is done once it has copied every field and holds nothing.
pub open spec fn task_done(t: TaskWalk, fields: usize) -> bool {
    t.next >= fields && t.holding is None
}

/// A holding task can always release and move on.
pub open spec fn can_release(t: TaskWalk) -> bool {
    t.holding is Some
}

/// A task that holds nothing can take its next lock unless the other task
/// holds exactly that lock.
pub open spec fn can_acquire(t: TaskWalk, other: TaskWalk, fields: usize) -> bool {
    t.holding is None && t.next < fields && other.holding != Some(t.next)
}

/// Some task can move.
pub open spec fn step_enabled(w: LockWalks, fields: usize) -> bool {
    ||| can_release(w.first)
    ||| can_acquire(w.first, w.second, fields)
    ||| can_release(w.second)
    ||| can_acquire(w.second, w.first, fields)
}

/// Freedom from deadlock: in every state in which the two walks have not
/// both finished, at least one of them can move. A blocked task holds no
/// lock, so the task blocking it is itself holding one and can always
/// release it — a circular wait can never form when no walk ever holds two
/// locks at once.
pub proof fn lemma_no_deadlock(w: LockWalks, fields: usize)
    requires
        !(task_done(w.first, fields) && task_done(w.second, fields)),
    ensures
        step_enabled(w, fields),
{
}

/// Two fresh walks over the given number of fields.
pub fn start_walks(fields: usize) -> (r: (LockWalks, usize))
    ensures
        r.1 == fields,
        r.0.first.next == 0 && r.0.first.holding is None,
        r.0.second.next == 0 && r.0.second.holding is None,
{
    (LockWalks {
        first: TaskWalk { next: 0, holding: None },
        second: TaskWalk { next: 0, holding: None },
    }, fields)
}

/// A walk only ever holds a lock that exists.
pub open spec fn walk_wf(t: TaskWalk, fields: usize) -> bool {
    t.holding is Some ==> t.holding->Some_0 < fields
}

/// Let one of the two tasks move if it can: release what it holds, or take
/// its next lock when the other task does not hold it. Returns whether the
/// task moved.
pub fn step_task(w: &mut LockWalks, fields: usize, first_task: bool) -> (moved: bool)
    requires
        walk_wf(old(w).first, fields),
        walk_wf(old(w).second, fields),
    ensures
        walk_wf(final(w).first, fields),
        walk_wf(final(w).second, fields),
        ({
            let (t, o) = if first_task {
                (old(w).first, old(w).second)
            } else {
                (old(w).second, old(w).first)
            };
            let (nt, no) = if first_task {
                (final(w).first, final(w).second)
            } else {
                (final(w).second, final(w).first)
            };
            &&& no == o
            &&& (moved <==> (can_release(t) || can_acquire(t, o, fields)))
            &&& (can_release(t) ==> nt.holding is None && nt.next == t.holding->Some_0 + 1)
            &&& (!can_release(t) && can_acquire(t, o, fields) ==> nt.holding == Some(t.next)
                && nt.next == t.next)
            &&& (!moved ==> nt == t)
        }),
{
    let (t, o) = if first_task {
        (&w.first, &w.second)
    } else {
        (&w.second, &w.first)
    };
    let nt = match t.holding {
        Some(i) => TaskWalk { next: i + 1, holding: None },
        None => {
            if t.next < fields && o.holding != Some(t.next) {
                TaskWalk { next: t.next, holding: Some(t.next) }
            } else {
                return false;
            }
        },
    };
    if first_task {
        w.first = nt;
    } else {
        w.second = nt;
    }
    true
}

} // verus!
