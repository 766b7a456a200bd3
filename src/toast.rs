use vstd::prelude::*;

use crate::click::elapsed;

verus! {

/// Seconds a toast stays up unless dismissed.
pub const TOAST_TTL_SECS: u64 = 4;

#[derive(Debug, Clone, Copy, PartialEq, Eq, Structural)]
pub enum ToastKind {
    Info,
    Success,
    Error,
}

/// A short-lived status message. `created_at_ms` is read on the caller's
/// millisecond clock.
#[derive(Debug)]
pub struct Toast {
    pub id: u64,
    pub message: String,
    pub kind: ToastKind,
    pub created_at_ms: u64,
    pub ttl_secs: u64,
}

/// A toast has expired once more than its time to live has passed.
pub open spec fn expired(t: Toast, now_ms: u64) -> bool {
    elapsed(t.created_at_ms, now_ms) > t.ttl_secs * 1000
}

/// A toast with the standard time to live survives every tick up to four
/// seconds after it was posted, and the first tick later than that removes
/// it.
pub proof fn lemma_toast_lifetime(t: Toast, now_ms: u64)
    requires
        t.ttl_secs == TOAST_TTL_SECS,
        now_ms >= t.created_at_ms,
    ensures
        now_ms - t.created_at_ms <= 4000 ==> live_at(now_ms)(t),
        now_ms - t.created_at_ms > 4000 ==> !live_at(now_ms)(t),
{
}

/// The toasts that `tick(now_ms)` keeps.
pub open spec fn live_at(now_ms: u64) -> spec_fn(Toast) -> bool {
    |t: Toast| !expired(t, now_ms)
}

/// The toasts that `dismiss(id)` keeps.
pub open spec fn other_than(id: u64) -> spec_fn(Toast) -> bool {
    |t: Toast| t.id != id
}

/// Ids in strictly increasing order, none above `counter`.
pub open spec fn ids_ordered(toasts: Seq<Toast>, counter: u64) -> bool {
    &&& forall|i: int, j: int| 0 <= i < j < toasts.len() ==> toasts[i].id < toasts[j].id
    &&& forall|i: int| 0 <= i < toasts.len() ==> #[trigger] toasts[i].id <= counter
}

/// `after` is `before` with one more toast at the end: the next id, message
/// `msg`, kind `kind`, posted at `now_ms` with the standard time to live.
pub open spec fn posted(before: NotificationCenter, after: NotificationCenter, msg: Seq<char>, kind: ToastKind, now_ms: u64) -> bool {
    &&& after.counter == before.counter + 1
    &&& after.toasts@.len() == before.toasts@.len() + 1
    &&& after.toasts@.drop_last() == before.toasts@
    &&& after.toasts@.last().id == after.counter
    &&& after.toasts@.last().message@ == msg
    &&& after.toasts@.last().kind == kind
    &&& after.toasts@.last().created_at_ms == now_ms
    &&& after.toasts@.last().ttl_secs == TOAST_TTL_SECS
}

/// The toasts on screen, oldest first, and the id handed out last.
#[derive(Debug)]
pub struct NotificationCenter {
    pub toasts: Vec<Toast>,
    pub counter: u64,
}

proof fn lemma_filter_ids_below(s: Seq<Toast>, pred: spec_fn(Toast) -> bool, bound: int)
    requires
        forall|i: int| 0 <= i < s.len() ==> #[trigger] s[i].id < bound,
    ensures
        forall|i: int| 0 <= i < s.filter(pred).len() ==> #[trigger] s.filter(pred)[i].id < bound,
    decreases s.len(),
{
    reveal(Seq::filter);
    if s.len() > 0 {
        let rest = s.drop_last();
        lemma_filter_ids_below(rest, pred, bound);
    }
}

proof fn lemma_filter_keeps_order(s: Seq<Toast>, pred: spec_fn(Toast) -> bool, counter: u64)
    requires
        ids_ordered(s, counter),
    ensures
        ids_ordered(s.filter(pred), counter),
    decreases s.len(),
{
    reveal(Seq::filter);
    if s.len() > 0 {
        let rest = s.drop_last();
        assert(ids_ordered(rest, counter));
        lemma_filter_keeps_order(rest, pred, counter);
        lemma_filter_ids_below(rest, pred, s.last().id as int);
        lemma_filter_ids_below(s, pred, counter + 1);
    }
}

impl NotificationCenter {
    pub open spec fn wf(&self) -> bool {
        ids_ordered(self.toasts@, self.counter)
    }

    pub fn new() -> (r: NotificationCenter)
        ensures
            r.wf(),
            r.toasts@.len() == 0,
            r.counter == 0,
    {
        NotificationCenter { toasts: Vec::new(), counter: 0 }
    }

    /// Posts a toast with the next id and the standard time to live; returns
    /// its id.
    pub fn post(&mut self, message: String, kind: ToastKind, now_ms: u64) -> (id: u64)
        requires
            old(self).wf(),
            old(self).counter < u64::MAX,
        ensures
            final(self).wf(),
            id == old(self).counter + 1,
            final(self).counter == id,
            final(self).toasts@ == old(self).toasts@.push(
                Toast { id, message, kind, created_at_ms: now_ms, ttl_secs: TOAST_TTL_SECS },
            ),
            posted(*old(self), *final(self), message@, kind, now_ms),
    {
        self.counter = self.counter + 1;
        let id = self.counter;
        self.toasts.push(Toast { id, message, kind, created_at_ms: now_ms, ttl_secs: TOAST_TTL_SECS });
        assert(self.toasts@.drop_last() =~= old(self).toasts@);
        id
    }

    /// Removes every toast that has expired at `now_ms`, keeping the others in
    /// order.
    pub fn tick(&mut self, now_ms: u64)
        requires
            old(self).wf(),
        ensures
            final(self).wf(),
            final(self).counter == old(self).counter,
            final(self).toasts@ == old(self).toasts@.filter(live_at(now_ms)),
    {
        let ghost pred = live_at(now_ms);
        let ghost orig = self.toasts@;
        let mut src: Vec<Toast> = Vec::new();
        std::mem::swap(&mut src, &mut self.toasts);
        let n = src.len();
        let mut i: usize = 0;
        while i < n
            invariant
                pred == live_at(now_ms),
                orig.len() == n,
                0 <= i <= n,
                self.counter == old(self).counter,
                ids_ordered(orig, self.counter),
                src@ == orig.subrange(i as int, n as int),
                self.toasts@ == orig.subrange(0, i as int).filter(pred),
            decreases n - i,
        {
            let t = src.remove(0);
            proof {
                reveal(Seq::filter);
                assert(orig.subrange(0, i + 1).drop_last() =~= orig.subrange(0, i as int));
                assert(src@ =~= orig.subrange(i + 1, n as int));
                assert(orig.subrange(0, i + 1).last() == t);
                assert(orig.subrange(0, i + 1).filter(pred) == if pred(t) {
                    orig.subrange(0, i as int).filter(pred).push(t)
                } else {
                    orig.subrange(0, i as int).filter(pred)
                });
            }
            let age = if now_ms >= t.created_at_ms { now_ms - t.created_at_ms } else { 0 };
            if (age as u128) <= (t.ttl_secs as u128) * 1000 {
                self.toasts.push(t);
            }
            i += 1;
        }
        assert(orig.subrange(0, n as int) =~= orig);
        proof {
            lemma_filter_keeps_order(orig, pred, self.counter);
        }
    }

    /// Removes the toast with id `id`, if any.
    pub fn dismiss(&mut self, id: u64)
        requires
            old(self).wf(),
        ensures
            final(self).wf(),
            final(self).counter == old(self).counter,
            final(self).toasts@ == old(self).toasts@.filter(other_than(id)),
    {
        let ghost pred = other_than(id);
        let ghost orig = self.toasts@;
        let mut src: Vec<Toast> = Vec::new();
        std::mem::swap(&mut src, &mut self.toasts);
        let n = src.len();
        let mut i: usize = 0;
        while i < n
            invariant
                pred == other_than(id),
                orig.len() == n,
                0 <= i <= n,
                self.counter == old(self).counter,
                ids_ordered(orig, self.counter),
                src@ == orig.subrange(i as int, n as int),
                self.toasts@ == orig.subrange(0, i as int).filter(pred),
            decreases n - i,
        {
            let t = src.remove(0);
            proof {
                reveal(Seq::filter);
                assert(orig.subrange(0, i + 1).drop_last() =~= orig.subrange(0, i as int));
                assert(src@ =~= orig.subrange(i + 1, n as int));
                assert(orig.subrange(0, i + 1).last() == t);
                assert(orig.subrange(0, i + 1).filter(pred) == if pred(t) {
                    orig.subrange(0, i as int).filter(pred).push(t)
                } else {
                    orig.subrange(0, i as int).filter(pred)
                });
            }
            if t.id != id {
                self.toasts.push(t);
            }

            i += 1;
        }
        assert(orig.subrange(0, n as int) =~= orig);
        proof {
            lemma_filter_keeps_order(orig, pred, self.counter);
        }
    }
}

} // verus!
