//! What a wait for events gives back, and when.

use crate::event_loop::{
    entry_next, wait_next, AskView, BatchView, EffectView, EntryAskView, EntryEventView,
    EntryOutcomeView, NoticeView, PhaseView, RequestView, Rules, TickView, Timers, WaitEventView,
};
use crate::json::{field, text_field, JsonView};
use crate::principal::caller_agent;
use crate::protocol::ResultView;
use crate::text::text_before;
use vstd::prelude::*;

verus! {

/// Whether the answer to a batch hands it over whole: as many notices as the
/// batch has events, and each carries the event of its place.
pub open spec fn hands_over(notices: Seq<NoticeView>, b: BatchView) -> bool {
    &&& notices.len() == b.events.len()
    &&& forall|i: int| 0 <= i < b.events.len() ==> #[trigger] notices[i] == NoticeView::Event(b.events[i])
}

/// A wait that was woken, or whose schedule fell due, ends with every pending
/// event: as many as the batch has, each in its place. The agent's cursor moves
/// to where the batch reaches, the agent counts as active, and the wait is over
/// and out of the register.
pub proof fn pending_events_end_the_wait(r: Rules, phase: PhaseView, b: BatchView, i: int)
    requires
        phase is WakeFeed || phase is DueFeed,
        0 <= i < b.events.len(),
    ensures
        ({
            let s = wait_next(r, phase, WaitEventView::Feed(Some(b)));
            let now = match phase {
                PhaseView::WakeFeed { now_iso, .. } => now_iso,
                PhaseView::DueFeed { tick, .. } => tick.now_iso,
                _ => Seq::empty(),
            };
            &&& s.phase is Over
            &&& s.ask is End
            &&& s.ask->notices.len() == b.events.len()
            &&& s.ask->notices[i] == NoticeView::Event(b.events[i])
            &&& hands_over(s.ask->notices, b)
            &&& s.effects.contains(EffectView::AdvanceCursor { cursor: b.next_cursor, now })
            &&& s.effects.contains(EffectView::TouchActivity { now })
            &&& s.effects.contains(EffectView::ResetLadder)
            &&& s.effects.contains(EffectView::Unregister)
        }),
{
    let s = wait_next(r, phase, WaitEventView::Feed(Some(b)));
    assert(s.effects.len() == 4);
    assert(s.effects[0] == EffectView::ResetLadder);
    assert(s.effects[1] is AdvanceCursor && s.effects[2] is TouchActivity);
    assert(s.effects[3] == EffectView::Unregister);
}

/// Where a wait ends with events, they are those of the batch that was just
/// heard, all of them, and nothing else comes with them.
pub proof fn no_event_is_made_up(r: Rules, phase: PhaseView, e: WaitEventView, i: int)
    requires
        wait_next(r, phase, e).ask is End,
        0 <= i < wait_next(r, phase, e).ask->notices.len(),
        wait_next(r, phase, e).ask->notices[i] is Event,
    ensures
        e matches WaitEventView::Feed(Some(b)) && b.events.len() > 0 && hands_over(
            wait_next(r, phase, e).ask->notices,
            b,
        ),
{
    match (phase, e) {
        (PhaseView::DueFeed { .. }, WaitEventView::Feed(Some(b))) => {
            if b.events.len() > 0 {
                pending_events_end_the_wait(r, phase, b, 0);
            }
        },
        (PhaseView::WakeFeed { .. }, WaitEventView::Feed(Some(b))) => {
            if b.events.len() > 0 {
                pending_events_end_the_wait(r, phase, b, 0);
            }
        },
        _ => {
            let n = wait_next(r, phase, e).ask->notices;
            assert(n.len() <= 1);
        },
    }
}

/// A wait that was woken for nothing goes on: no effect, the next round, and
/// all its times as they were. So does one whose events could not be gathered
/// at the last attempt; before that they are asked for again, for the same
/// point in time.
pub proof fn idle_wakes_change_nothing(
    r: Rules,
    timers: Timers,
    now_iso: Seq<char>,
    attempts: u32,
    b: BatchView,
)
    requires
        b.events.len() == 0,
    ensures
        ({
            let phase = PhaseView::WakeFeed { timers, now_iso, attempts };
            let empty = wait_next(r, phase, WaitEventView::Feed(Some(b)));
            let failed = wait_next(r, phase, WaitEventView::Feed(None));
            &&& empty.effects.len() == 0 && failed.effects.len() == 0
            &&& empty.ask == AskView::Tick && empty.phase == PhaseView::Ticking { timers }
            &&& attempts <= 1 ==> failed.ask == AskView::Tick && failed.phase
                == PhaseView::Ticking { timers }
            &&& attempts > 1 ==> failed.ask == AskView::Feed { now_iso } && failed.phase
                == PhaseView::WakeFeed { timers, now_iso, attempts: (attempts - 1) as u32 }
        }),
{
}

/// A wake asks for events as of the time of the wake, in up to three attempts.
pub proof fn wakes_ask_for_events(r: Rules, timers: Timers, now_iso: Seq<char>)
    ensures
        ({
            let s = wait_next(r, PhaseView::Pausing { timers }, WaitEventView::Woken { now_iso });
            &&& s.effects.len() == 0
            &&& s.ask == AskView::Feed { now_iso }
            &&& s.phase == PhaseView::WakeFeed { timers, now_iso, attempts: 3 }
        }),
{
}

/// An agent that may not listen any more is told to stop, and why; one whose
/// wait a newer one replaced is told so; and either wait ends with that alone.
pub proof fn stopped_waits_say_why(
    r: Rules,
    timers: Timers,
    reason: Option<Seq<char>>,
    now_iso: Seq<char>,
)
    ensures
        ({
            let revoked = wait_next(
                r,
                PhaseView::Pausing { timers },
                WaitEventView::Revoked { reason, now_iso },
            );
            let replaced = wait_next(
                r,
                PhaseView::Pausing { timers },
                WaitEventView::Superseded { now_iso },
            );
            &&& revoked.ask is End && revoked.ask->notices.len() == 1
            &&& revoked.ask->notices[0] matches NoticeView::Stop { reason: told, now } && now
                == now_iso && (reason is Some ==> told == reason->0) && (reason is None ==> told
                == "auto_event_loop is OFF"@)
            &&& replaced.ask is End && replaced.ask->notices.len() == 1
            &&& replaced.ask->notices[0] == NoticeView::Superseded { now: now_iso }
            &&& replaced.effects.len() == 0
        }),
{
}

/// A reminder that is due looks up the agent's open work, puts the next one off
/// by the whole interval, and ends the wait with what is open; where nothing
/// is, the round goes on.
pub proof fn reminders_tell_of_open_work(
    r: Rules,
    t: Timers,
    k: TickView,
    backlog: JsonView,
    due: u128,
)
    requires
        t.reminder_at == Some(due),
        due <= k.now,
        t.idle_at is None || t.idle_at->0 > k.now || k.due is Some,
    ensures
        ({
            let s = wait_next(r, PhaseView::Ticking { timers: t }, WaitEventView::Ticked(k));
            let told = wait_next(r, s.phase, WaitEventView::Backlog(Some(backlog)));
            &&& s.ask == AskView::Backlog
            &&& s.effects == seq![EffectView::MarkReminded]
            &&& s.phase is Backlog && s.phase->Backlog_tick == k
            &&& s.phase->Backlog_timers.reminder_at is Some
            &&& s.phase->Backlog_timers.reminder_at->0 == k.now + t.reminder_interval
                * 1_000_000_000
            &&& s.phase->Backlog_timers.deadline == t.deadline
            &&& s.phase->Backlog_timers.idle_at == t.idle_at
            &&& told.ask is End && told.ask->notices.len() == 1
            &&& told.ask->notices[0] == NoticeView::Reminder { backlog, now: k.now_iso }
            &&& told.effects.contains(EffectView::ResetLadder)
            &&& told.effects.contains(EffectView::Unregister)
        }),
{
    let s = wait_next(r, PhaseView::Ticking { timers: t }, WaitEventView::Ticked(k));
    let told = wait_next(r, s.phase, WaitEventView::Backlog(Some(backlog)));
    assert(t.reminder_interval * 1_000_000_000 <= 0xffff_ffff_ffff_ffff * 1_000_000_000);
    assert(told.effects[0] == EffectView::ResetLadder && told.effects[1] == EffectView::Unregister);
}

/// Whether nothing but the time is left to be looked at in a round: nobody is
/// idle too long, no reminder is due, and no schedule is.
pub open spec fn quiet(t: Timers, k: TickView) -> bool {
    &&& t.idle_at is None || t.idle_at->0 > k.now || k.due is Some
    &&& t.reminder_at is None || t.reminder_at->0 > k.now
    &&& k.due is None || text_before(k.now_iso, k.due->0)
}

/// A quiet wait lasts until its time is up, and no longer: before its deadline
/// it goes on, at its deadline it ends, empty-handed. Where short polls are
/// counted and nothing overrides that, the poll is noted first.
pub proof fn quiet_waits_end_at_their_deadline(r: Rules, t: Timers, k: TickView)
    requires
        quiet(t, k),
    ensures
        ({
            let s = wait_next(r, PhaseView::Ticking { timers: t }, WaitEventView::Ticked(k));
            &&& s.ask is End ==> t.deadline <= k.now && s.ask->notices.len() == 0
            &&& t.deadline <= k.now && !(r.ladder_eligible && !r.ladder_override) ==> s.ask is End
            &&& t.deadline <= k.now && r.ladder_eligible && !r.ladder_override ==> s.ask
                == AskView::NoteEmptyPoll && s.phase == PhaseView::EmptyPoll { tick: k }
            &&& t.deadline > k.now && k.due is None ==> s.ask is Pause && s.phase
                == PhaseView::Pausing { timers: t }
            &&& t.deadline > k.now && k.due is Some ==> s.ask == AskView::UntilDue {
                due: k.due->0,
            }
        }),
{
}

/// A short poll that was noted ends the wait, with the advice that the note
/// brought, where it brought one.
pub proof fn noted_polls_end_with_advice(r: Rules, k: TickView, advice: Option<Seq<char>>)
    ensures
        ({
            let s = wait_next(r, PhaseView::EmptyPoll { tick: k }, WaitEventView::Advice(advice));
            &&& s.ask is End
            &&& advice is None ==> s.ask->notices.len() == 0
            &&& advice is Some ==> s.ask->notices.len() == 1 && s.ask->notices[0]
                == NoticeView::Advisory { text: advice->0, now: k.now_iso }
        }),
{
}

/// A schedule that is due, by the texts of the two times, has events gathered
/// for it, unless a reminder comes first.
pub proof fn due_schedules_gather_events(r: Rules, t: Timers, k: TickView)
    requires
        k.due is Some,
        !text_before(k.now_iso, k.due->0),
        t.reminder_at is None || t.reminder_at->0 > k.now,
    ensures
        ({
            let s = wait_next(r, PhaseView::Ticking { timers: t }, WaitEventView::Ticked(k));
            &&& s.ask == AskView::Feed { now_iso: k.now_iso }
            &&& s.effects.len() == 0
            &&& s.phase == PhaseView::DueFeed { timers: t, tick: k, attempts: 3 }
        }),
{
}

/// The times of a new wait count from the moment it opens: its end after the
/// time it may last, the stop of an idle agent after what is left of its idle
/// time, the reminder after what is left until it, the first heartbeat after
/// one interval.
pub proof fn waits_count_from_their_opening(
    r: Rules,
    now: u64,
    idle_remaining: Option<i64>,
    interval: i64,
    reminder_in: u64,
)
    requires
        now + r.timeout <= u128::MAX,
    ensures
        ({
            let off = wait_next(
                r,
                PhaseView::Opening,
                WaitEventView::Opened {
                    now,
                    idle_remaining,
                    reminder_enabled: false,
                    reminder_interval: interval,
                },
            );
            let asked = wait_next(
                r,
                PhaseView::Opening,
                WaitEventView::Opened {
                    now,
                    idle_remaining,
                    reminder_enabled: true,
                    reminder_interval: interval,
                },
            );
            let on = wait_next(r, asked.phase, WaitEventView::ReminderDueIn(reminder_in));
            &&& off.ask is Tick && off.phase is Ticking
            &&& off.phase->Ticking_timers.deadline == now + r.timeout
            &&& off.phase->Ticking_timers.reminder_at is None
            &&& off.phase->Ticking_timers.next_heartbeat == now + r.heartbeat_interval
            &&& off.phase->Ticking_timers.misses == 0 && off.phase->Ticking_timers.progress == 0
            &&& idle_remaining is None <==> off.phase->Ticking_timers.idle_at is None
            &&& idle_remaining matches Some(left) ==> off.phase->Ticking_timers.idle_at->0 == now
                + (if left > 0 {
                left as int
            } else {
                0
            })
            &&& interval > 0 ==> asked.ask == AskView::ReminderDueIn { interval: interval as u64 }
            &&& interval > 0 ==> {
                &&& on.ask is Tick && on.phase is Ticking
                &&& on.phase->Ticking_timers.deadline == now + r.timeout
                &&& on.phase->Ticking_timers.idle_at == off.phase->Ticking_timers.idle_at
                &&& on.phase->Ticking_timers.reminder_at is Some
                &&& on.phase->Ticking_timers.reminder_at->0 == now + reminder_in
                &&& on.phase->Ticking_timers.reminder_interval == interval
            }
            &&& interval <= 0 ==> asked == off
        }),
{
}

/// How long a round pauses: until the first of what it watches, exactly. That is
/// the end of the wait, the next look at the agent's flags two seconds on, the
/// stop of an idle agent, the reminder, or a schedule that lies ahead.
pub proof fn pauses_last_until_the_first_time(r: Rules, t: Timers, k: TickView, ms: Option<i64>)
    requires
        t.deadline > k.now,
        t.idle_at is Some ==> t.idle_at->0 >= k.now,
        t.reminder_at is Some ==> t.reminder_at->0 >= k.now,
    ensures
        ({
            let s = wait_next(
                r,
                PhaseView::UntilDue { timers: t, tick: k },
                WaitEventView::UntilDue(ms),
            );
            let length = s.ask->timeout as int;
            &&& s.ask is Pause
            &&& s.phase == PhaseView::Pausing { timers: t }
            &&& length <= 2_000_000_000 && length <= t.deadline - k.now
            &&& t.idle_at matches Some(at) ==> length <= at - k.now
            &&& t.reminder_at matches Some(at) ==> length <= at - k.now
            &&& ms is Some && ms->0 > 0 ==> length <= ms->0 * 1_000_000
            &&& {
                ||| length == 2_000_000_000
                ||| length == t.deadline - k.now
                ||| t.idle_at matches Some(at) && length == at - k.now
                ||| t.reminder_at matches Some(at) && length == at - k.now
                ||| ms matches Some(n) && n > 0 && length == n * 1_000_000
            }
        }),
{
}

/// Heartbeats: one is sent when it is due and there is someone to send it to,
/// numbered one higher than the last. One that arrived clears the count of
/// missed ones; the second in a row that did not ends the wait; and the next is
/// due one interval on.
pub proof fn heartbeats_follow_their_interval(r: Rules, t: Timers, now: u64, later: u64)
    requires
        t.progress < u64::MAX,
        t.misses < 2,
    ensures
        ({
            let s = wait_next(r, PhaseView::Pausing { timers: t }, WaitEventView::Paused { now });
            let beating = PhaseView::Beating { timers: t };
            let arrived = wait_next(r, beating, WaitEventView::Beat { sent: true, now: later });
            let lost = wait_next(r, beating, WaitEventView::Beat { sent: false, now: later });
            let due = r.heartbeat_enabled && t.next_heartbeat <= now;
            &&& due && r.has_sink ==> s.ask == AskView::Beat { progress: (t.progress + 1) as u64 }
            &&& due && r.has_sink ==> s.phase == (PhaseView::Beating {
                timers: Timers { progress: (t.progress + 1) as u64, ..t },
            })
            &&& !due ==> s.ask is Tick && s.phase == PhaseView::Ticking { timers: t }
            &&& due && !r.has_sink ==> s.ask is Tick && s.phase is Ticking
                && s.phase->Ticking_timers.next_heartbeat == now + r.heartbeat_interval
            &&& arrived.ask is Tick && arrived.phase is Ticking
            &&& arrived.phase->Ticking_timers.misses == 0
            &&& arrived.phase->Ticking_timers.next_heartbeat == later + r.heartbeat_interval
            &&& t.misses == 1 ==> lost.ask is End && lost.ask->notices.len() == 0
            &&& t.misses == 0 ==> lost.ask is Tick && lost.phase is Ticking
                && lost.phase->Ticking_timers.misses == 1
                && lost.phase->Ticking_timers.next_heartbeat == later + r.heartbeat_interval
        }),
{
}

/// Where a call says since when, that is where its wait begins; else where the
/// agent stands, which is looked up first.
pub proof fn waits_begin_where_the_agent_stands(q: RequestView, h: Seq<EntryEventView>)
    requires
        entry_next(q, h).outcome matches EntryOutcomeView::Ask(EntryAskView::Feed { .. }),
    ensures
        ({
            let since = entry_next(q, h).outcome->Ask_0->since;
            &&& text_field(q.arguments, "since"@) matches Some(s) ==> since == Some(s)
            &&& text_field(q.arguments, "since"@) is None ==> {
                &&& field(q.arguments, "since"@) is None || field(q.arguments, "since"@) == Some(
                    JsonView::Null,
                )
                &&& entry_next(q, h.subrange(0, 0)).outcome == EntryOutcomeView::Ask(
                    EntryAskView::StoredCursor,
                )
                &&& h.len() > 0
                &&& h[0] matches EntryEventView::Cursor(s) ==> since == s
            }
        }),
{
    assert(h.subrange(0, 0).len() == 0);
}

/// The events that are pending when a call comes are its answer: as many as the
/// batch has, each in its place; the cursor moves to where the batch reaches.
pub proof fn pending_events_answer_the_call(
    q: RequestView,
    h: Seq<EntryEventView>,
    b: BatchView,
    i: int,
)
    requires
        entry_next(q, h).outcome matches EntryOutcomeView::Ask(EntryAskView::Feed { .. }),
        0 <= i < b.events.len(),
    ensures
        ({
            let s = entry_next(q, h.push(EntryEventView::Feed(Some(b))));
            &&& s.outcome is Done
            &&& s.outcome->notices.len() == b.events.len()
            &&& s.outcome->notices[i] == NoticeView::Event(b.events[i])
            &&& hands_over(s.outcome->notices, b)
            &&& s.outcome->since == entry_next(q, h).outcome->Ask_0->since
            &&& s.effects.contains(EffectView::AdvanceCursor { cursor: b.next_cursor, now: q.now })
            &&& s.effects.contains(EffectView::TouchActivity { now: q.now })
            &&& s.effects.contains(EffectView::Unregister)
        }),
{
    let g = h.push(EntryEventView::Feed(Some(b)));
    let s = entry_next(q, g);
    assert(forall|k: int| 0 <= k < h.len() ==> g[k] == h[k]);
    assert(g[h.len() as int] == EntryEventView::Feed(Some(b)));
    assert(s.outcome is Done);
    assert(s.effects[1] is AdvanceCursor && s.effects[2] is TouchActivity);
    assert(s.effects[3] == EffectView::Unregister);
}

/// An answer of the entry that holds an event holds the batch that was just
/// heard, whole.
pub proof fn entries_make_no_event_up(q: RequestView, h: Seq<EntryEventView>, i: int)
    requires
        entry_next(q, h).outcome is Done,
        0 <= i < entry_next(q, h).outcome->notices.len(),
        entry_next(q, h).outcome->notices[i] is Event,
    ensures
        exists|k: int|
            0 <= k < h.len() && (#[trigger] h[k] matches EntryEventView::Feed(Some(b)) && hands_over(
                entry_next(q, h).outcome->notices,
                b,
            )),
{
    let n = entry_next(q, h).outcome->notices;
    assert(n.len() == 1 && !(n[0] is Event) || exists|k: int|
        0 <= k < h.len() && (#[trigger] h[k] matches EntryEventView::Feed(Some(b)) && hands_over(
            n,
            b,
        )));
}

/// Once a call is registered, an agent that may not listen is told to stop, and
/// why; one that may has its pending events looked up.
pub proof fn silenced_agents_are_told_to_stop(
    q: RequestView,
    h: Seq<EntryEventView>,
    reason: Option<Seq<char>>,
)
    requires
        entry_next(q, h).outcome == EntryOutcomeView::Ask(EntryAskView::Flags),
    ensures
        entry_next(q, h).effects.contains(EffectView::Register),
        ({
            let off = entry_next(q, h.push(EntryEventView::Flags { enabled: false, reason }));
            let on = entry_next(q, h.push(EntryEventView::Flags { enabled: true, reason }));
            &&& off.outcome is Done && off.outcome->notices.len() == 1
            &&& off.outcome->notices[0] matches NoticeView::Stop { reason: told, now } && now
                == q.now && (reason matches Some(s) ==> told == s)
            &&& off.effects.contains(EffectView::Unregister)
            &&& on.outcome matches EntryOutcomeView::Ask(EntryAskView::Feed { .. })
            &&& on.effects.contains(EffectView::Drain)
        }),
{
    let fx = entry_next(q, h).effects;
    assert(fx[0] == EffectView::Register || fx[1] == EffectView::Register);
    let a = h.push(EntryEventView::Flags { enabled: false, reason });
    let b = h.push(EntryEventView::Flags { enabled: true, reason });
    assert(forall|k: int| 0 <= k < h.len() ==> a[k] == h[k] && b[k] == h[k]);
    assert(a[h.len() as int] == EntryEventView::Flags { enabled: false, reason });
    assert(b[h.len() as int] == EntryEventView::Flags { enabled: true, reason });
    assert(entry_next(q, a).effects[0] == EffectView::Unregister);
    assert(entry_next(q, b).effects[0] == EffectView::Drain);
}

/// An agent that was idle too long is told to stop, unless a schedule keeps it.
/// Any other call without pending events goes on to wait: for the agent that
/// calls, from where it stands, and for as long as its client may hold, or as
/// the call asks for where that is shorter and nothing overrides it.
pub proof fn waits_are_set_up_for_the_caller(
    q: RequestView,
    h: Seq<EntryEventView>,
    idle: Option<i64>,
    scheduled: bool,
)
    requires
        entry_next(q, h).outcome == EntryOutcomeView::Ask(EntryAskView::IdleRemaining),
    ensures
        ({
            let g = h.push(EntryEventView::IdleRemaining(idle));
            let s = entry_next(q, g.push(EntryEventView::Scheduled(scheduled)));
            let longest = match q.hold_cap {
                Some(n) => n as int,
                None => 86400,
            };
            let most = 1_000_000_000 * (if q.heartbeat || longest < q.silent_hold {
                longest
            } else {
                q.silent_hold as int
            });
            &&& entry_next(q, g).outcome == EntryOutcomeView::Ask(EntryAskView::Scheduled)
            &&& (idle is Some && idle->0 <= 0 && !scheduled) ==> s.outcome is Done
                && s.outcome->notices.len() == 1 && s.outcome->notices[0] is Stop
            &&& !(idle is Some && idle->0 <= 0 && !scheduled) ==> {
                &&& s.outcome is EnterSlowPath
                &&& Some(s.outcome->EnterSlowPath_0.agent_id) == caller_agent(q.principal)
                &&& text_field(q.arguments, "since"@) matches Some(t)
                    ==> s.outcome->EnterSlowPath_0.since == Some(t)
                &&& s.outcome->EnterSlowPath_0.timeout <= most
                &&& q.requested is None || s.outcome->EnterSlowPath_0.ladder_override
                    ==> s.outcome->EnterSlowPath_0.timeout == most
                &&& (q.requested is Some && q.requested->0 > 0
                    && !s.outcome->EnterSlowPath_0.ladder_override)
                    ==> s.outcome->EnterSlowPath_0.timeout == if q.requested->0 < most {
                    q.requested->0 as int
                } else {
                    most
                }
                &&& s.outcome->EnterSlowPath_0.heartbeat_enabled == (q.heartbeat
                    && q.progress_token_present)
            }
        }),
{
    let g = h.push(EntryEventView::IdleRemaining(idle));
    let f = g.push(EntryEventView::Scheduled(scheduled));
    assert(forall|k: int| 0 <= k < h.len() ==> g[k] == h[k] && f[k] == h[k]);
    assert(g[h.len() as int] == EntryEventView::IdleRemaining(idle));
    assert(f[h.len() as int] == EntryEventView::IdleRemaining(idle));
    assert(f[h.len() as int + 1] == EntryEventView::Scheduled(scheduled));
}

/// A call without an agent is refused, and one whose point in time is neither a
/// text nor left open is told which argument is wrong.
pub proof fn bad_waits_are_refused(q: RequestView, h: Seq<EntryEventView>)
    ensures
        caller_agent(q.principal) is None || caller_agent(q.principal)->0.len() == 0 ==> (
        entry_next(q, h).outcome matches EntryOutcomeView::Refused(
            ResultView::PermissionDenied { .. },
        )),
        (caller_agent(q.principal) matches Some(id) && id.len() > 0) && (field(
            q.arguments,
            "since"@,
        ) matches Some(v) && !(v is Null) && !(v is Text)) ==> (entry_next(q, h).outcome matches
            EntryOutcomeView::Refused(ResultView::Invalid { field: f, .. }) && f == Some("since"@)),
        entry_next(q, h).outcome is Refused ==> caller_agent(q.principal) is None || caller_agent(
            q.principal,
        )->0.len() == 0 || field(q.arguments, "since"@) is Some,
{
}

/// A gathering of events that fails is tried again, three times in all, for the
/// same time; when all have failed the wait goes on as if nothing had come.
pub proof fn failed_gatherings_are_tried_again(
    r: Rules,
    t: Timers,
    k: TickView,
    now_iso: Seq<char>,
    attempts: u32,
)
    requires
        1 <= attempts <= 3,
    ensures
        ({
            let woken = wait_next(
                r,
                PhaseView::Pausing { timers: t },
                WaitEventView::Woken { now_iso },
            );
            let wake = wait_next(
                r,
                PhaseView::WakeFeed { timers: t, now_iso, attempts },
                WaitEventView::Feed(None),
            );
            let due = wait_next(
                r,
                PhaseView::DueFeed { timers: t, tick: k, attempts },
                WaitEventView::Feed(None),
            );
            &&& woken.phase == PhaseView::WakeFeed { timers: t, now_iso, attempts: 3 }
            &&& attempts > 1 ==> wake.ask == (AskView::Feed { now_iso }) && wake.phase
                == PhaseView::WakeFeed { timers: t, now_iso, attempts: (attempts - 1) as u32 }
            &&& attempts == 1 ==> wake.ask is Tick && wake.phase == PhaseView::Ticking { timers: t }
            &&& attempts > 1 ==> due.ask == (AskView::Feed { now_iso: k.now_iso }) && due.phase
                == PhaseView::DueFeed { timers: t, tick: k, attempts: (attempts - 1) as u32 }
            &&& attempts == 1 ==> !(due.ask is Feed)
            &&& wake.effects.len() == 0
        }),
{
}

/// An agent that is to be sent a sign of life, and that asks for a shorter wait
/// than it may have, has how long it is to wait decided first. Every other call
/// begins by forgetting what was decided before.
pub proof fn short_waits_are_decided_first(q: RequestView, since: Seq<char>)
    requires
        q.principal is Some,
        q.principal->0.agent_id is Some,
        q.principal->0.agent_id->0.len() > 0,
        text_field(q.arguments, "since"@) == Some(since),
    ensures
        ({
            let longest = match q.hold_cap {
                Some(n) => n as int,
                None => 86400,
            };
            let most = 1_000_000_000 * (if q.heartbeat || longest < q.silent_hold {
                longest
            } else {
                q.silent_hold as int
            });
            let short = q.heartbeat && q.progress_token_present && q.requested is Some
                && 0 < q.requested->0 < most;
            let first = entry_next(q, Seq::empty());
            &&& short ==> first.outcome == EntryOutcomeView::Ask(EntryAskView::LadderDecision)
                && first.effects.len() == 0
            &&& !short ==> first.outcome == EntryOutcomeView::Ask(EntryAskView::Flags)
                && first.effects == seq![EffectView::ResetLadder, EffectView::Register]
            &&& short ==> forall|b: bool|
                {
                    let then = #[trigger] entry_next(
                        q,
                        seq![EntryEventView::Ladder { override_hold: b }],
                    );
                    &&& then.outcome == EntryOutcomeView::Ask(EntryAskView::Flags)
                    &&& then.effects == seq![EffectView::Register]
                }
        }),
{
}

/// A call that does not say since when has the agent's own mark looked up, once,
/// and then goes on as one that says it.
pub proof fn marks_are_looked_up_once(q: RequestView, mark: Option<Seq<char>>)
    requires
        q.principal is Some,
        q.principal->0.agent_id is Some,
        q.principal->0.agent_id->0.len() > 0,
        field(q.arguments, "since"@) is None,
    ensures
        ({
            let first = entry_next(q, Seq::empty());
            let then = entry_next(q, seq![EntryEventView::Cursor(mark)]);
            &&& first.outcome == EntryOutcomeView::Ask(EntryAskView::StoredCursor)
            &&& first.effects.len() == 0
            &&& then.outcome == EntryOutcomeView::Ask(EntryAskView::LadderDecision) || then.outcome
                == EntryOutcomeView::Ask(EntryAskView::Flags)
        }),
{
}

/// A call that finds no event goes on to wait.
pub proof fn calls_without_events_go_on_to_wait(
    q: RequestView,
    h: Seq<EntryEventView>,
    b: Option<BatchView>,
)
    requires
        entry_next(q, h).outcome matches EntryOutcomeView::Ask(EntryAskView::Feed { .. }),
        b is Some ==> b->0.events.len() == 0,
    ensures
        entry_next(q, h.push(EntryEventView::Feed(b))).outcome == EntryOutcomeView::Ask(
            EntryAskView::IdleRemaining,
        ),
{
    let g = h.push(EntryEventView::Feed(b));
    assert(forall|k: int| 0 <= k < h.len() ==> g[k] == h[k]);
    assert(g[h.len() as int] == EntryEventView::Feed(b));
}

} // verus!
