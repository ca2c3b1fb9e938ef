//! The decisions of the reminder server.
//!
//! Once a second the server looks at each stored reminder in turn, at the
//! time of the clock when it gets to it, and lets the due ones go off.
//! After the round it removes the one-time reminders that went off.
use vstd::prelude::*;
use crate::media::Media;
use crate::reminder::{Reminder, ReminderView};
use crate::apifs_object::reminder_views;
use crate::time::{
    Date, DateTime, datetime_of, not_before, shifted, timestamp_in_range, weekday_index,
};

verus! {

/// What a look at a reminder finds.
#[derive(Clone, Copy, Debug, PartialEq, Eq, Structural)]
pub enum ReminderCheck {
    /// Not due yet.
    Waiting,
    /// Due: it goes off now.
    Due,
    /// Due, but its next point in time lies beyond chrono's range.
    DueOutOfRange,
}

/// What looking at reminder `r` at `now` finds, and what the reminder becomes:
/// a one-time reminder is due from its point in time on; a daily one at or
/// after its time of day, on a marked weekday, once a day, and it then
/// records the day; a repeating one from its point in time on, and it then
/// moves on by its span.
pub open spec fn check(r: ReminderView, now: DateTime) -> (ReminderCheck, ReminderView) {
    match r {
        ReminderView::Once(at, _, _) => if now.reached(at) {
            (ReminderCheck::Due, r)
        } else {
            (ReminderCheck::Waiting, r)
        },
        ReminderView::Daily(time, days, last_day, media, description) => {
            let today = now.spec_date();
            if not_before(now.spec_time(), now.nanos as int, time.secs as int, time.nanos as int)
                && today != last_day.days && days[weekday_index(today)] {
                (
                    ReminderCheck::Due,
                    ReminderView::Daily(time, days, Date { days: today as i64 }, media, description),
                )
            } else {
                (ReminderCheck::Waiting, r)
            }
        },
        ReminderView::SpecificInterval(at, every, media, description) => if now.reached(at) {
            let next = shifted(at, every.secs as int);
            if timestamp_in_range(next.0) {
                (
                    ReminderCheck::Due,
                    ReminderView::SpecificInterval(datetime_of(next), every, media, description),
                )
            } else {
                (ReminderCheck::DueOutOfRange, r)
            }
        } else {
            (ReminderCheck::Waiting, r)
        },
    }
}

/// Whether position `p` is listed in `d`.
pub open spec fn listed(d: Seq<usize>, p: int) -> bool {
    exists|j: int| 0 <= j < d.len() && d[j] as int == p
}

/// The entries of `s` at the positions that `d` does not list, in order.
pub open spec fn kept<T>(s: Seq<T>, d: Seq<usize>) -> Seq<T>
    decreases s.len(),
{
    if s.len() == 0 {
        s
    } else {
        let rest = kept(s.drop_last(), d);
        if listed(d, s.len() - 1) {
            rest
        } else {
            rest.push(s.last())
        }
    }
}

/// Nothing of `s` is dropped where `d` lists no position inside it.
pub proof fn lemma_kept_none<T>(s: Seq<T>, d: Seq<usize>)
    requires
        forall|j: int| 0 <= j < d.len() ==> d[j] >= s.len(),
    ensures
        kept(s, d) == s,
    decreases s.len(),
{
    if s.len() > 0 {
        lemma_kept_none(s.drop_last(), d);
        assert(s.drop_last().push(s.last()) =~= s);
    }
}

proof fn lemma_kept_long<T>(s: Seq<T>, d: Seq<usize>, p: int)
    requires
        0 <= p < s.len(),
        forall|j: int| 0 <= j < d.len() ==> d[j] > p,
    ensures
        kept(s, d).len() > p,
    decreases s.len(),
{
    if s.len() - 1 == p {
        lemma_kept_none(s.drop_last(), d);
    } else {
        lemma_kept_long(s.drop_last(), d, p);
    }
}

/// Removing the entry at `p`, which lies before every position that `d`
/// lists, from what `d` keeps is keeping what `p` and `d` together list.
proof fn lemma_kept_remove<T>(s: Seq<T>, d: Seq<usize>, p: usize)
    requires
        p < s.len(),
        forall|j: int| 0 <= j < d.len() ==> d[j] > p,
    ensures
        kept(s, d).len() > p,
        kept(s, d).remove(p as int) == kept(s, seq![p] + d),
    decreases s.len(),
{
    let e = seq![p] + d;
    let last = s.len() - 1;
    let s2 = s.drop_last();
    lemma_kept_long(s, d, p as int);
    assert(listed(e, p as int)) by {
        assert(e[0] == p);
    }
    assert(forall|x: int| x != p ==> (listed(e, x) == listed(d, x))) by {
        assert forall|x: int| x != p implies listed(e, x) == listed(d, x) by {
            if listed(e, x) {
                let j = choose|j: int| 0 <= j < e.len() && e[j] as int == x;
                assert(d[j - 1] == e[j]);
            }
            if listed(d, x) {
                let j = choose|j: int| 0 <= j < d.len() && d[j] as int == x;
                assert(e[j + 1] == d[j]);
            }
        }
    }
    if last == p {
        assert(!listed(d, last));
        lemma_kept_none(s2, d);
        assert(forall|j: int| 0 <= j < e.len() ==> e[j] >= s2.len()) by {
            assert forall|j: int| 0 <= j < e.len() implies e[j] >= s2.len() by {
                if j > 0 {
                    assert(e[j] == d[j - 1]);
                }
            }
        }
        lemma_kept_none(s2, e);
        assert(kept(s, d) =~= s2.push(s.last()));
        assert(kept(s, d).remove(p as int) =~= s2);
    } else {
        lemma_kept_remove(s2, d, p);
        if !listed(d, last) {
            lemma_kept_long(s2, d, p as int);
            let a = kept(s2, d);
            assert(a.push(s.last()).remove(p as int) =~= a.remove(p as int).push(s.last()));
        }
    }
}

/// A reminder that is not due stays as it is.
pub proof fn law_waiting_keeps_reminder(r: ReminderView, now: DateTime)
    requires
        check(r, now).0 == ReminderCheck::Waiting,
    ensures
        check(r, now).1 == r,
{
}

/// A daily reminder goes off at most once a day: once it has gone off, it
/// is not due again at any time of the same day.
pub proof fn law_daily_once_a_day(r: ReminderView, now: DateTime, later: DateTime)
    requires
        r is Daily,
        check(r, now).0 == ReminderCheck::Due,
        later.spec_date() == now.spec_date(),
        now.wf(),
    ensures
        check(check(r, now).1, later).0 == ReminderCheck::Waiting,
{
}

/// A repeating reminder that goes off next goes off one span after the
/// point in time at which it was due, and not before.
pub proof fn law_interval_moves_on(r: ReminderView, now: DateTime, later: DateTime)
    requires
        r matches ReminderView::SpecificInterval(at, every, _, _) && !later.reached(
            datetime_of(shifted(at, every.secs as int)),
        ),
        check(r, now).0 == ReminderCheck::Due,
    ensures
        check(r, now).1 matches ReminderView::SpecificInterval(next, every2, _, _) && next
            == datetime_of(shifted(r->SpecificInterval_0, r->SpecificInterval_1.secs as int))
            && every2 == r->SpecificInterval_1,
        check(check(r, now).1, later).0 == ReminderCheck::Waiting,
{
}

/// Keeping the entries at the positions not listed drops as many entries as
/// there are positions listed, where these are increasing and inside.
pub proof fn law_kept_len<T>(s: Seq<T>, d: Seq<usize>)
    requires
        forall|a: int, b: int| 0 <= a < b < d.len() ==> d[a] < d[b],
        forall|k: int| 0 <= k < d.len() ==> d[k] < s.len(),
    ensures
        kept(s, d).len() == s.len() - d.len(),
    decreases d.len(),
{
    if d.len() == 0 {
        lemma_kept_none(s, d);
    } else {
        let rest = d.drop_first();
        assert forall|j: int| 0 <= j < rest.len() implies rest[j] > d[0] by {
            assert(rest[j] == d[j + 1]);
        }
        law_kept_len(s, rest);
        lemma_kept_remove(s, rest, d[0]);
        assert(seq![d[0]] + rest =~= d);
    }
}

/// The reminders of a round that started with `start`, once the first
/// `seen.len()` of them were looked at, the one at position `j` at the time
/// `seen[j]`.
pub open spec fn looked_at(start: Seq<ReminderView>, seen: Seq<DateTime>) -> Seq<ReminderView> {
    Seq::new(
        start.len(),
        |j: int|
            if j < seen.len() {
                check(start[j], seen[j]).1
            } else {
                start[j]
            },
    )
}

/// The positions, in increasing order, of the one-time reminders that went
/// off among the first `seen.len()` of a round that started with `start`.
pub open spec fn fired_once(start: Seq<ReminderView>, seen: Seq<DateTime>) -> Seq<usize>
    decreases seen.len(),
{
    if seen.len() == 0 {
        seq![]
    } else {
        let j = seen.len() - 1;
        let earlier = fired_once(start, seen.drop_last());
        if start[j] is Once && check(start[j], seen[j]).0 == ReminderCheck::Due {
            earlier.push(j as usize)
        } else {
            earlier
        }
    }
}

/// Whether a reminder went off among the first `seen.len()` of a round
/// that started with `start`.
pub open spec fn went_off(start: Seq<ReminderView>, seen: Seq<DateTime>) -> bool {
    exists|j: int|
        0 <= j < seen.len() && j < start.len() && #[trigger] check(start[j], seen[j]).0
            != ReminderCheck::Waiting
}

/// What a whole round, which started with `start` and looked at the
/// reminder at position `j` at the time `seen[j]`, leaves stored: where a
/// reminder went off, the reminders as they became, without the one-time
/// reminders that went off; else `start` as it was.
pub open spec fn round_result(start: Seq<ReminderView>, seen: Seq<DateTime>) -> Seq<ReminderView> {
    if went_off(start, seen) {
        kept(looked_at(start, seen), fired_once(start, seen))
    } else {
        start
    }
}

/// The positions that went off are increasing, lie among those looked at,
/// and are exactly those of the one-time reminders that went off.
pub proof fn lemma_fired_once(start: Seq<ReminderView>, seen: Seq<DateTime>)
    requires
        seen.len() <= start.len() <= usize::MAX,
    ensures
        forall|a: int, b: int|
            0 <= a < b < fired_once(start, seen).len() ==> fired_once(start, seen)[a]
                < fired_once(start, seen)[b],
        forall|k: int|
            0 <= k < fired_once(start, seen).len() ==> fired_once(start, seen)[k] < seen.len(),
        forall|p: int|
            listed(fired_once(start, seen), p) <==> (0 <= p < seen.len() && start[p] is Once
                && check(start[p], seen[p]).0 == ReminderCheck::Due),
    decreases seen.len(),
{
    if seen.len() > 0 {
        let j = seen.len() - 1;
        let s2 = seen.drop_last();
        let e = fired_once(start, s2);
        lemma_fired_once(start, s2);
        let f = fired_once(start, seen);
        let fires = start[j] is Once && check(start[j], seen[j]).0 == ReminderCheck::Due;
        if fires {
            assert(f == e.push(j as usize));
            assert(f[e.len() as int] as int == j);
        } else {
            assert(f == e);
        }
        assert forall|k: int| 0 <= k < e.len() implies f[k] == e[k] && e[k] < j by {}
        assert forall|p: int|
            listed(f, p) <==> (0 <= p < seen.len() && start[p] is Once && check(start[p], seen[p]).0
                == ReminderCheck::Due) by {
            if 0 <= p < j {
                assert(s2[p] == seen[p]);
            }
            if listed(f, p) {
                let k = choose|k: int| 0 <= k < f.len() && f[k] as int == p;
                if k < e.len() {
                    assert(listed(e, p));
                }
            }
            if 0 <= p < j && start[p] is Once && check(start[p], seen[p]).0 == ReminderCheck::Due {
                assert(listed(e, p));
                let k = choose|k: int| 0 <= k < e.len() && e[k] as int == p;
                assert(f[k] as int == p);
            }
            if p == j && fires {
                assert(f[e.len() as int] as int == p);
            }
        }
    }
}

/// Viewing the reminders kept is keeping the views.
pub proof fn lemma_kept_views(s: Seq<Reminder>, d: Seq<usize>)
    ensures
        reminder_views(kept(s, d)) == kept(reminder_views(s), d),
    decreases s.len(),
{
    if s.len() > 0 {
        lemma_kept_views(s.drop_last(), d);
        assert(reminder_views(s.drop_last()) =~= reminder_views(s).drop_last());
        if !listed(d, s.len() - 1) {
            assert(reminder_views(kept(s.drop_last(), d).push(s.last())) =~= reminder_views(
                kept(s.drop_last(), d),
            ).push(s.last()@));
        }
    }
}

/// A whole round keeps, in their order, the reminders that are not one-time
/// reminders that went off, each as looking at it at its time made it: as
/// many as there were less those removed. Where nothing went off, it
/// leaves the reminders as they were.
pub proof fn law_round(start: Seq<ReminderView>, seen: Seq<DateTime>)
    requires
        seen.len() == start.len() <= usize::MAX,
    ensures
        went_off(start, seen) ==> round_result(start, seen).len() == start.len() - fired_once(
            start,
            seen,
        ).len(),
        forall|p: int|
            listed(fired_once(start, seen), p) <==> (0 <= p < start.len() && start[p] is Once
                && check(start[p], seen[p]).0 == ReminderCheck::Due),
        forall|j: int| 0 <= j < start.len() ==> #[trigger] looked_at(start, seen)[j] == check(start[j], seen[j]).1,
        !went_off(start, seen) ==> round_result(start, seen) == start && looked_at(start, seen) == start
            && fired_once(start, seen).len() == 0,
{
    lemma_fired_once(start, seen);
    let f = fired_once(start, seen);
    law_kept_len(looked_at(start, seen), f);
    if !went_off(start, seen) {
        assert forall|j: int| 0 <= j < start.len() implies looked_at(start, seen)[j] == start[j] by {
            if check(start[j], seen[j]).0 != ReminderCheck::Waiting {
                assert(went_off(start, seen));
            }
        }
        assert(looked_at(start, seen) =~= start);
        if f.len() > 0 {
            assert(listed(f, f[0] as int));
            let p = f[0] as int;
            assert(check(start[p], seen[p]).0 != ReminderCheck::Waiting);
        }
    }
}

/// One round of the server over the stored reminders.
pub struct Tick {
    /// The positions of the one-time reminders that went off, in increasing order.
    pub to_remove: Vec<usize>,
    /// Whether a reminder went off in this round.
    pub changed: bool,
    /// The reminders as they were when the round started.
    pub start: Ghost<Seq<ReminderView>>,
    /// The times at which the reminders looked at so far were looked at.
    pub seen: Ghost<Seq<DateTime>>,
}

impl Tick {
    /// The positions to remove are strictly increasing.
    pub open spec fn wf(&self) -> bool {
        forall|a: int, b: int|
            0 <= a < b < self.to_remove.len() ==> self.to_remove@[a] < self.to_remove@[b]
    }

    /// `reminders` are the reminders of this round, with those looked at so
    /// far changed as looking at them changed them, and the removals and
    /// the change recorded.
    pub open spec fn in_round(&self, reminders: Seq<Reminder>) -> bool {
        &&& self.seen@.len() <= self.start@.len()
        &&& reminders.len() == self.start@.len()
        &&& reminder_views(reminders) == looked_at(self.start@, self.seen@)
        &&& self.to_remove@ == fired_once(self.start@, self.seen@)
        &&& self.changed == went_off(self.start@, self.seen@)
    }

    /// A round over `reminders` in which nothing has been looked at yet.
    pub fn new(reminders: &Vec<Reminder>) -> (t: Tick)
        ensures
            t.to_remove@ == Seq::<usize>::empty(),
            !t.changed,
            t.wf(),
            t.start@ == reminder_views(reminders@),
            t.seen@ == Seq::<DateTime>::empty(),
            t.in_round(reminders@),
    {
        let t = Tick {
            to_remove: Vec::new(),
            changed: false,
            start: Ghost(reminder_views(reminders@)),
            seen: Ghost(Seq::empty()),
        };
        assert(looked_at(t.start@, t.seen@) =~= reminder_views(reminders@));
        t
    }

    /// Looks at the reminder at position `i`, the next in the round, at the
    /// time `now`: says whether it goes off, moves a daily or repeating
    /// reminder that goes off on, and marks a one-time reminder that goes
    /// off for removal.
    pub fn visit(&mut self, reminders: &mut Vec<Reminder>, i: usize, now: DateTime) -> (c: ReminderCheck)
        requires
            old(self).in_round(old(reminders)@),
            i == old(self).seen@.len(),
            i < old(reminders).len(),
            old(reminders)@[i as int].wf(),
            now.wf(),
        ensures
            c == check(old(reminders)@[i as int]@, now).0,
            final(reminders)@.len() == old(reminders)@.len(),
            final(reminders)@[i as int]@ == check(old(reminders)@[i as int]@, now).1,
            final(reminders)@[i as int].wf(),
            forall|j: int|
                0 <= j < old(reminders).len() && j != i ==> final(reminders)@[j] == old(
                    reminders,
                )@[j],
            final(self).to_remove@ == (if c == ReminderCheck::Due && old(reminders)@[i as int] is Once {
                old(self).to_remove@.push(i)
            } else {
                old(self).to_remove@
            }),
            final(self).changed == (old(self).changed || c != ReminderCheck::Waiting),
            final(self).wf(),
            final(self).start@ == old(self).start@,
            final(self).seen@ == old(self).seen@.push(now),
            final(self).in_round(final(reminders)@),
    {
        let ghost start = self.start@;
        let ghost seen = self.seen@;
        let ghost before = old(reminders)@;
        proof {
            lemma_fired_once(start, seen);
            assert(reminder_views(before)[i as int] == looked_at(start, seen)[i as int]);
            assert(before[i as int]@ == start[i as int]);
        }
        let c = self.look(reminders, i, now);
        proof {
            let seen2 = seen.push(now);
            self.seen = Ghost(seen2);
            assert(seen2.drop_last() =~= seen);
            assert(reminder_views(reminders@) =~= looked_at(start, seen2)) by {
                assert forall|j: int| 0 <= j < start.len() implies #[trigger] reminder_views(reminders@)[j]
                    == looked_at(start, seen2)[j] by {
                    if j != i {
                        assert(reminders@[j] == before[j]);
                        assert(reminder_views(before)[j] == looked_at(start, seen)[j]);
                    }
                }
            }
            assert(went_off(start, seen2) == (went_off(start, seen) || c != ReminderCheck::Waiting)) by {
                if went_off(start, seen2) && c == ReminderCheck::Waiting {
                    let j = choose|j: int|
                        0 <= j < seen2.len() && j < start.len() && #[trigger] check(start[j], seen2[j]).0
                            != ReminderCheck::Waiting;
                    assert(seen2[j] == seen[j]);
                    assert(check(start[j], seen[j]).0 != ReminderCheck::Waiting);
                }
                if went_off(start, seen) {
                    let j = choose|j: int|
                        0 <= j < seen.len() && j < start.len() && #[trigger] check(start[j], seen[j]).0
                            != ReminderCheck::Waiting;
                    assert(seen2[j] == seen[j]);
                    assert(check(start[j], seen2[j]).0 != ReminderCheck::Waiting);
                }
                if c != ReminderCheck::Waiting {
                    assert(seen2[i as int] == now);
                    assert(check(start[i as int], seen2[i as int]).0 != ReminderCheck::Waiting);
                }
            }
        }
        c
    }

    /// Looks at the reminder at position `i` at the time `now`, and records
    /// what the round learns of it.
    fn look(&mut self, reminders: &mut Vec<Reminder>, i: usize, now: DateTime) -> (c: ReminderCheck)
        requires
            old(self).wf(),
            i < old(reminders).len(),
            old(reminders)@[i as int].wf(),
            now.wf(),
            forall|k: int| 0 <= k < old(self).to_remove.len() ==> old(self).to_remove@[k] < i,
        ensures
            c == check(old(reminders)@[i as int]@, now).0,
            final(reminders)@.len() == old(reminders)@.len(),
            final(reminders)@[i as int]@ == check(old(reminders)@[i as int]@, now).1,
            final(reminders)@[i as int].wf(),
            forall|j: int|
                0 <= j < old(reminders).len() && j != i ==> final(reminders)@[j] == old(
                    reminders,
                )@[j],
            final(self).to_remove@ == (if c == ReminderCheck::Due && old(reminders)@[i as int] is Once {
                old(self).to_remove@.push(i)
            } else {
                old(self).to_remove@
            }),
            final(self).changed == (old(self).changed || c != ReminderCheck::Waiting),
            final(self).wf(),
            final(self).start == old(self).start,
            final(self).seen == old(self).seen,
    {
        let ghost before = old(reminders)@;
        let ghost v = before[i as int]@;
        let ghost checked = check(v, now);
        let mut new_day: Option<Date> = None;
        let mut new_start: Option<DateTime> = None;
        match &reminders[i] {
            Reminder::Once(at, _, _) => {
                if now.is_at_or_after(at) {
                    self.to_remove.push(i);
                    self.changed = true;
                    return ReminderCheck::Due;
                } else {
                    return ReminderCheck::Waiting;
                }
            },
            Reminder::Daily(time, days, last_day, _, _) => {
                let t = now.time();
                let today = now.date();
                let wd = today.weekday();
                if t.is_at_or_after(time) && today.days != last_day.days && days[wd] {
                    new_day = Some(today);
                } else {
                    return ReminderCheck::Waiting;
                }
            },
            Reminder::SpecificInterval(at, every, _, _) => {
                if now.is_at_or_after(at) {
                    match at.checked_add(*every) {
                        Some(next) => {
                            new_start = Some(next);
                        },
                        None => {
                            self.changed = true;
                            return ReminderCheck::DueOutOfRange;
                        },
                    }
                } else {
                    return ReminderCheck::Waiting;
                }
            },
        }
        let mut cur = Reminder::Once(
            DateTime { secs: 0, nanos: 0 },
            Media { picture: None, sound: None },
            None,
        );
        reminders.set_and_swap(i, &mut cur);
        let updated = match cur {
            Reminder::Daily(time, days, last_day, media, description) => match new_day {
                Some(d) => Reminder::Daily(time, days, d, media, description),
                None => Reminder::Daily(time, days, last_day, media, description),
            },
            Reminder::SpecificInterval(at, every, media, description) => match new_start {
                Some(n) => Reminder::SpecificInterval(n, every, media, description),
                None => Reminder::SpecificInterval(at, every, media, description),
            },
            other => other,
        };
        reminders.set(i, updated);
        self.changed = true;
        assert(final(reminders)@[i as int]@ =~= checked.1);
        ReminderCheck::Due
    }

    /// Ends the round, once every reminder has been looked at: where a
    /// reminder went off, removes the one-time reminders that went off and
    /// says that the stored data changed.
    pub fn finish(self, reminders: &mut Vec<Reminder>) -> (changed: bool)
        requires
            self.in_round(old(reminders)@),
            self.seen@.len() == self.start@.len(),
        ensures
            changed == self.changed,
            changed == went_off(self.start@, self.seen@),
            reminder_views(final(reminders)@) == round_result(self.start@, self.seen@),
            final(reminders)@ == (if self.changed {
                kept(old(reminders)@, self.to_remove@)
            } else {
                old(reminders)@
            }),
    {
        proof {
            assert(old(reminders)@.len() == old(reminders).len());
            lemma_fired_once(self.start@, self.seen@);
            lemma_kept_views(old(reminders)@, self.to_remove@);
            if !self.changed {
                law_round(self.start@, self.seen@);
            }
        }
        self.remove_marked(reminders)
    }

    /// Where a reminder went off, removes the reminders at the positions
    /// marked.
    fn remove_marked(self, reminders: &mut Vec<Reminder>) -> (changed: bool)
        requires
            self.wf(),
            forall|k: int| 0 <= k < self.to_remove.len() ==> self.to_remove@[k] < old(reminders).len(),
        ensures
            changed == self.changed,
            final(reminders)@ == (if self.changed {
                kept(old(reminders)@, self.to_remove@)
            } else {
                old(reminders)@
            }),
    {
        if !self.changed {
            return false;
        }
        let ghost orig = old(reminders)@;
        let ghost d = self.to_remove@;
        let mut k: usize = self.to_remove.len();
        proof {
            lemma_kept_none(orig, d.subrange(k as int, d.len() as int));
        }
        while k > 0
            invariant
                k <= self.to_remove.len(),
                d == self.to_remove@,
                self.wf(),
                forall|m: int| 0 <= m < d.len() ==> d[m] < orig.len(),
                reminders@ == kept(orig, d.subrange(k as int, d.len() as int)),
            decreases k,
        {
            let p = self.to_remove[k - 1];
            let ghost rest = d.subrange(k as int, d.len() as int);
            proof {
                assert forall|j: int| 0 <= j < rest.len() implies rest[j] > p by {
                    assert(rest[j] == d[k + j]);
                }
                lemma_kept_remove(orig, rest, p);
                assert(seq![p] + rest =~= d.subrange(k - 1, d.len() as int));
            }
            reminders.remove(p);
            k = k - 1;
        }
        assert(d.subrange(0, d.len() as int) =~= d);
        true
    }
}

} // verus!
