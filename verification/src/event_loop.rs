//! `wait_for_events`: an agent waits until something happens to it.
//!
//! The wait has two parts. The entry ([`wait_for_events_entry`]) finds where
//! the agent stands, registers it as waiting and returns at once where events
//! are pending. The slow path ([`wait_for_events_slow_path`]) then runs in
//! rounds, each of which ends in one bounded pause.
//!
//! Both say what to do next as a list of [`Effect`]s, performed in their order
//! and whatever comes of them, and then one question. Times are nanoseconds on
//! a clock that never goes back; time stamps are texts.

use crate::agent_communication_tools::{cursor_in, identified, read_cursor, Cursor, CursorView};
use crate::json::{list_view, Json, JsonView};
use crate::principal::{agent_of, caller_agent, Principal, PrincipalView};
use crate::protocol::{ResultView, ToolResult};
use crate::text::{comes_before, copy_opt, opt, own, text_before};
use vstd::prelude::*;

verus! {

/// How long a pause of the slow path lasts at most.
pub const FLAG_RECHECK_INTERVAL_SECONDS: u64 = 2;

/// How long a client may hold that has no limit of its own: a day.
pub const UNCAPPED_HOLD_CEILING_SECONDS: u64 = 86400;

/// After how many heartbeats in a row that did not arrive a wait is given up.
pub const MAX_HEARTBEAT_MISSES: u32 = 2;

/// How often a feed is asked for before its failure counts.
pub const FEED_ATTEMPTS: u32 = 3;

/// Nanoseconds in a second.
pub const SECOND: u128 = 1_000_000_000;

/// What a caller without an agent reads.
pub const WAIT_DENIED: &'static str = "Unauthorized: Valid agent token required to long-poll events";

/// Why an agent without events is told to stop.
pub const IDLE_STOP_REASON: &'static str = "event-loop idle-stop window exceeded (no events)";

// ---------------------------------------------------------------------
// What a wait says and hears
// ---------------------------------------------------------------------

/// One item of the answer that ends a wait.
#[allow(inconsistent_fields)]
#[derive(Debug)]
pub enum Notice {
    /// The agent is to stop listening.
    Stop { reason: String, now: String },
    /// A newer wait of the agent has taken over.
    Superseded { now: String },
    /// Work lies waiting.
    Reminder { backlog: Json, now: String },
    /// Advice on how long to hold.
    Advisory { text: String, now: String },
    /// An event.
    Event(Json),
}

#[allow(inconsistent_fields)]
pub enum NoticeView {
    Stop { reason: Seq<char>, now: Seq<char> },
    Superseded { now: Seq<char> },
    Reminder { backlog: JsonView, now: Seq<char> },
    Advisory { text: Seq<char>, now: Seq<char> },
    Event(JsonView),
}

impl View for Notice {
    type V = NoticeView;

    open spec fn view(&self) -> NoticeView {
        match *self {
            Notice::Stop { reason, now } => NoticeView::Stop { reason: reason@, now: now@ },
            Notice::Superseded { now } => NoticeView::Superseded { now: now@ },
            Notice::Reminder { backlog, now } => NoticeView::Reminder {
                backlog: backlog@,
                now: now@,
            },
            Notice::Advisory { text, now } => NoticeView::Advisory { text: text@, now: now@ },
            Notice::Event(j) => NoticeView::Event(j@),
        }
    }
}

/// The meanings of notices.
pub open spec fn notices(v: Seq<Notice>) -> Seq<NoticeView> {
    v.map_values(|n: Notice| n@)
}

/// Something to be done for the waiting agent, whatever comes of it.
#[allow(inconsistent_fields)]
#[derive(Debug)]
pub enum Effect {
    /// Register the agent as waiting; an older wait of it is superseded.
    Register,
    /// Take this wait out of the register.
    Unregister,
    /// Drop wake signals that are already there.
    Drain,
    /// Forget how often the agent polled in vain.
    ResetLadder,
    /// Note that the agent was reminded just now.
    MarkReminded,
    /// Store how far the agent has read its events.
    AdvanceCursor { cursor: String, now: String },
    /// Note that the agent was active.
    TouchActivity { now: String },
}

#[allow(inconsistent_fields)]
pub enum EffectView {
    Register,
    Unregister,
    Drain,
    ResetLadder,
    MarkReminded,
    AdvanceCursor { cursor: Seq<char>, now: Seq<char> },
    TouchActivity { now: Seq<char> },
}

impl View for Effect {
    type V = EffectView;

    open spec fn view(&self) -> EffectView {
        match *self {
            Effect::Register => EffectView::Register,
            Effect::Unregister => EffectView::Unregister,
            Effect::Drain => EffectView::Drain,
            Effect::ResetLadder => EffectView::ResetLadder,
            Effect::MarkReminded => EffectView::MarkReminded,
            Effect::AdvanceCursor { cursor, now } => EffectView::AdvanceCursor {
                cursor: cursor@,
                now: now@,
            },
            Effect::TouchActivity { now } => EffectView::TouchActivity { now: now@ },
        }
    }
}

/// The meanings of effects.
pub open spec fn effects(v: Seq<Effect>) -> Seq<EffectView> {
    v.map_values(|e: Effect| e@)
}

/// Events for the agent, and how far they reach.
#[derive(Debug)]
pub struct Batch {
    pub events: Vec<Json>,
    pub next_cursor: String,
}

pub struct BatchView {
    pub events: Seq<JsonView>,
    pub next_cursor: Seq<char>,
}

impl View for Batch {
    type V = BatchView;

    open spec fn view(&self) -> BatchView {
        BatchView { events: list_view(self.events@), next_cursor: self.next_cursor@ }
    }
}

/// The view of an optional batch.
pub open spec fn opt_batch(b: Option<Batch>) -> Option<BatchView> {
    match b {
        Some(x) => Some(x@),
        None => None,
    }
}

/// What is done when events are handed over.
pub open spec fn hand_over(b: BatchView, now: Seq<char>) -> Seq<EffectView> {
    seq![
        EffectView::ResetLadder,
        EffectView::AdvanceCursor { cursor: b.next_cursor, now },
        EffectView::TouchActivity { now },
        EffectView::Unregister,
    ]
}

/// The events of a batch as notices.
pub open spec fn batch_notices(b: BatchView) -> Seq<NoticeView> {
    b.events.map_values(|j: JsonView| NoticeView::Event(j))
}

fn hand_over_effects(b: &Batch, now: &str) -> (r: Vec<Effect>)
    ensures
        effects(r@) == hand_over(b@, now@),
{
    let mut v: Vec<Effect> = Vec::new();
    v.push(Effect::ResetLadder);
    v.push(Effect::AdvanceCursor { cursor: own(b.next_cursor.as_str()), now: own(now) });
    v.push(Effect::TouchActivity { now: own(now) });
    v.push(Effect::Unregister);
    proof {
        assert(effects(v@) =~= hand_over(b@, now@));
    }
    v
}

fn event_notices(b: &Batch) -> (r: Vec<Notice>)
    ensures
        notices(r@) == batch_notices(b@),
{
    let mut v: Vec<Notice> = Vec::new();
    let mut i: usize = 0;
    proof {
        crate::json::lemma_list_view(b.events@);
    }
    while i < b.events.len()
        invariant
            i <= b.events@.len(),
            v@.len() == i,
            forall|k: int| 0 <= k < i ==> (#[trigger] v@[k])@ == NoticeView::Event(b.events@[k]@),
        decreases b.events@.len() - i,
    {
        v.push(Notice::Event(b.events[i].copy()));
        i = i + 1;
    }
    proof {
        assert(notices(v@) =~= batch_notices(b@));
    }
    v
}

fn no_effects() -> (r: Vec<Effect>)
    ensures
        effects(r@) == Seq::<EffectView>::empty(),
{
    let v: Vec<Effect> = Vec::new();
    proof {
        assert(effects(v@) =~= Seq::empty());
    }
    v
}

fn one_effect(e: Effect) -> (r: Vec<Effect>)
    ensures
        effects(r@) == seq![e@],
{
    let mut v: Vec<Effect> = Vec::new();
    v.push(e);
    proof {
        assert(effects(v@) =~= seq![e@]);
    }
    v
}

fn two_effects(e: Effect, f: Effect) -> (r: Vec<Effect>)
    ensures
        effects(r@) == seq![e@, f@],
{
    let mut v: Vec<Effect> = Vec::new();
    v.push(e);
    v.push(f);
    proof {
        assert(effects(v@) =~= seq![e@, f@]);
    }
    v
}

fn no_notices() -> (r: Vec<Notice>)
    ensures
        notices(r@) == Seq::<NoticeView>::empty(),
{
    let v: Vec<Notice> = Vec::new();
    proof {
        assert(notices(v@) =~= Seq::empty());
    }
    v
}

fn one_notice(n: Notice) -> (r: Vec<Notice>)
    ensures
        notices(r@) == seq![n@],
{
    let mut v: Vec<Notice> = Vec::new();
    v.push(n);
    proof {
        assert(notices(v@) =~= seq![n@]);
    }
    v
}

// ---------------------------------------------------------------------
// The slow path
// ---------------------------------------------------------------------

/// What the slow path is told by the entry.
#[derive(Debug)]
pub struct SlowPathSetup {
    pub agent_id: String,
    /// From where on the agent wants events; goes back to it with the answer.
    pub since: Option<String>,
    /// How long the wait may last.
    pub timeout: u128,
    /// Whether an empty wait counts as a short poll.
    pub ladder_eligible: bool,
    /// Whether the agent's own limit was overridden.
    pub ladder_override: bool,
    /// Whether heartbeats are sent.
    pub heartbeat_enabled: bool,
}

pub struct SetupView {
    pub agent_id: Seq<char>,
    pub since: Option<Seq<char>>,
    pub timeout: u128,
    pub ladder_eligible: bool,
    pub ladder_override: bool,
    pub heartbeat_enabled: bool,
}

impl View for SlowPathSetup {
    type V = SetupView;

    open spec fn view(&self) -> SetupView {
        SetupView {
            agent_id: self.agent_id@,
            since: opt(self.since),
            timeout: self.timeout,
            ladder_eligible: self.ladder_eligible,
            ladder_override: self.ladder_override,
            heartbeat_enabled: self.heartbeat_enabled,
        }
    }
}

/// What holds for all rounds of a wait.
#[derive(Debug, Clone, Copy)]
pub struct Rules {
    pub timeout: u128,
    pub ladder_eligible: bool,
    pub ladder_override: bool,
    pub heartbeat_enabled: bool,
    /// Whether there is anyone to send heartbeats to.
    pub has_sink: bool,
    /// The time between heartbeats.
    pub heartbeat_interval: u64,
}

/// The points in time that a wait watches.
#[derive(Debug, Clone, Copy)]
pub struct Timers {
    /// When the wait ends.
    pub deadline: u128,
    /// When an agent without events is told to stop.
    pub idle_at: Option<u128>,
    /// When the agent is reminded of its work.
    pub reminder_at: Option<u128>,
    /// Seconds between reminders.
    pub reminder_interval: u64,
    /// When the next heartbeat is due.
    pub next_heartbeat: u128,
    /// How many heartbeats were sent.
    pub progress: u64,
    /// How many of the latest did not arrive.
    pub misses: u32,
}

/// The time of a round, and when the agent's next schedule is due.
#[derive(Debug)]
pub struct Tick {
    pub now: u64,
    pub now_iso: String,
    pub due: Option<String>,
}

pub struct TickView {
    pub now: u64,
    pub now_iso: Seq<char>,
    pub due: Option<Seq<char>>,
}

impl View for Tick {
    type V = TickView;

    open spec fn view(&self) -> TickView {
        TickView { now: self.now, now_iso: self.now_iso@, due: opt(self.due) }
    }
}

/// What the slow path waits to hear.
#[allow(inconsistent_fields)]
#[derive(Debug)]
pub enum Phase {
    Opening,
    Reminding { now: u64, idle_remaining: Option<i64>, interval: u64 },
    Ticking { timers: Timers },
    Backlog { timers: Timers, tick: Tick },
    DueFeed { timers: Timers, tick: Tick, attempts: u32 },
    EmptyPoll { tick: Tick },
    UntilDue { timers: Timers, tick: Tick },
    Pausing { timers: Timers },
    WakeFeed { timers: Timers, now_iso: String, attempts: u32 },
    Beating { timers: Timers },
    Over,
}

#[allow(inconsistent_fields)]
pub enum PhaseView {
    Opening,
    Reminding { now: u64, idle_remaining: Option<i64>, interval: u64 },
    Ticking { timers: Timers },
    Backlog { timers: Timers, tick: TickView },
    DueFeed { timers: Timers, tick: TickView, attempts: u32 },
    EmptyPoll { tick: TickView },
    UntilDue { timers: Timers, tick: TickView },
    Pausing { timers: Timers },
    WakeFeed { timers: Timers, now_iso: Seq<char>, attempts: u32 },
    Beating { timers: Timers },
    Over,
}

impl View for Phase {
    type V = PhaseView;

    open spec fn view(&self) -> PhaseView {
        match *self {
            Phase::Opening => PhaseView::Opening,
            Phase::Reminding { now, idle_remaining, interval } => PhaseView::Reminding {
                now,
                idle_remaining,
                interval,
            },
            Phase::Ticking { timers } => PhaseView::Ticking { timers },
            Phase::Backlog { timers, tick } => PhaseView::Backlog { timers, tick: tick@ },
            Phase::DueFeed { timers, tick, attempts } => PhaseView::DueFeed {
                timers,
                tick: tick@,
                attempts,
            },
            Phase::EmptyPoll { tick } => PhaseView::EmptyPoll { tick: tick@ },
            Phase::UntilDue { timers, tick } => PhaseView::UntilDue { timers, tick: tick@ },
            Phase::Pausing { timers } => PhaseView::Pausing { timers },
            Phase::WakeFeed { timers, now_iso, attempts } => PhaseView::WakeFeed {
                timers,
                now_iso: now_iso@,
                attempts,
            },
            Phase::Beating { timers } => PhaseView::Beating { timers },
            Phase::Over => PhaseView::Over,
        }
    }
}

/// What the slow path hears.
#[allow(inconsistent_fields)]
#[derive(Debug)]
pub enum WaitEvent {
    /// The time, how long the agent may yet be idle, and whether and how often
    /// it is reminded.
    Opened {
        now: u64,
        idle_remaining: Option<i64>,
        reminder_enabled: bool,
        reminder_interval: i64,
    },
    /// The time until the next reminder.
    ReminderDueIn(u64),
    /// A new round.
    Ticked(Tick),
    /// The work that lies waiting, if any.
    Backlog(Option<Json>),
    /// The events since the agent's position; none where they could not be
    /// gathered.
    Feed(Option<Batch>),
    /// The advice after a poll in vain, if any.
    Advice(Option<String>),
    /// The milliseconds until the next schedule, where its time can be read.
    UntilDue(Option<i64>),
    /// The agent may not listen any more.
    Revoked { reason: Option<String>, now_iso: String },
    /// A newer wait has taken over.
    Superseded { now_iso: String },
    /// The agent was woken.
    Woken { now_iso: String },
    /// The pause passed.
    Paused { now: u64 },
    /// Whether the heartbeat arrived.
    Beat { sent: bool, now: u64 },
}

#[allow(inconsistent_fields)]
pub enum WaitEventView {
    Opened {
        now: u64,
        idle_remaining: Option<i64>,
        reminder_enabled: bool,
        reminder_interval: i64,
    },
    ReminderDueIn(u64),
    Ticked(TickView),
    Backlog(Option<JsonView>),
    Feed(Option<BatchView>),
    Advice(Option<Seq<char>>),
    UntilDue(Option<i64>),
    Revoked { reason: Option<Seq<char>>, now_iso: Seq<char> },
    Superseded { now_iso: Seq<char> },
    Woken { now_iso: Seq<char> },
    Paused { now: u64 },
    Beat { sent: bool, now: u64 },
}

impl View for WaitEvent {
    type V = WaitEventView;

    open spec fn view(&self) -> WaitEventView {
        match *self {
            WaitEvent::Opened { now, idle_remaining, reminder_enabled, reminder_interval } =>
                WaitEventView::Opened {
                now,
                idle_remaining,
                reminder_enabled,
                reminder_interval,
            },
            WaitEvent::ReminderDueIn(n) => WaitEventView::ReminderDueIn(n),
            WaitEvent::Ticked(t) => WaitEventView::Ticked(t@),
            WaitEvent::Backlog(b) => WaitEventView::Backlog(crate::protocol::opt_tree(b)),
            WaitEvent::Feed(b) => WaitEventView::Feed(opt_batch(b)),
            WaitEvent::Advice(a) => WaitEventView::Advice(opt(a)),
            WaitEvent::UntilDue(n) => WaitEventView::UntilDue(n),
            WaitEvent::Revoked { reason, now_iso } => WaitEventView::Revoked {
                reason: opt(reason),
                now_iso: now_iso@,
            },
            WaitEvent::Superseded { now_iso } => WaitEventView::Superseded { now_iso: now_iso@ },
            WaitEvent::Woken { now_iso } => WaitEventView::Woken { now_iso: now_iso@ },
            WaitEvent::Paused { now } => WaitEventView::Paused { now },
            WaitEvent::Beat { sent, now } => WaitEventView::Beat { sent, now },
        }
    }
}

/// What the slow path asks, or how it ends.
#[allow(inconsistent_fields)]
#[derive(Debug)]
pub enum Ask {
    /// Read the clock and the settings.
    Open,
    /// The time until the next reminder, at this interval in seconds.
    ReminderDueIn { interval: u64 },
    /// Begin a round.
    Tick,
    /// Read the work that lies waiting.
    Backlog,
    /// Gather the events since the agent's position.
    Feed { now_iso: String },
    /// Count a poll in vain, and give advice.
    NoteEmptyPoll,
    /// Read how long it is until this time.
    UntilDue { due: String },
    /// Pause until the agent is woken, at most so long.
    Pause { timeout: u64 },
    /// Send a heartbeat.
    Beat { progress: u64 },
    /// End the wait with this answer.
    End { notices: Vec<Notice> },
}

#[allow(inconsistent_fields)]
pub enum AskView {
    Open,
    ReminderDueIn { interval: u64 },
    Tick,
    Backlog,
    Feed { now_iso: Seq<char> },
    NoteEmptyPoll,
    UntilDue { due: Seq<char> },
    Pause { timeout: u64 },
    Beat { progress: u64 },
    End { notices: Seq<NoticeView> },
}

impl View for Ask {
    type V = AskView;

    open spec fn view(&self) -> AskView {
        match *self {
            Ask::Open => AskView::Open,
            Ask::ReminderDueIn { interval } => AskView::ReminderDueIn { interval },
            Ask::Tick => AskView::Tick,
            Ask::Backlog => AskView::Backlog,
            Ask::Feed { now_iso } => AskView::Feed { now_iso: now_iso@ },
            Ask::NoteEmptyPoll => AskView::NoteEmptyPoll,
            Ask::UntilDue { due } => AskView::UntilDue { due: due@ },
            Ask::Pause { timeout } => AskView::Pause { timeout },
            Ask::Beat { progress } => AskView::Beat { progress },
            Ask::End { notices: v } => AskView::End { notices: notices(v@) },
        }
    }
}

/// A step of the slow path: the effects, the question, and what is waited for.
#[derive(Debug)]
pub struct Step {
    pub effects: Vec<Effect>,
    pub ask: Ask,
    pub phase: Phase,
}

pub struct StepView {
    pub effects: Seq<EffectView>,
    pub ask: AskView,
    pub phase: PhaseView,
}

impl View for Step {
    type V = StepView;

    open spec fn view(&self) -> StepView {
        StepView { effects: effects(self.effects@), ask: self.ask@, phase: self.phase@ }
    }
}

/// The step that ends a wait.
pub open spec fn end(fx: Seq<EffectView>, items: Seq<NoticeView>) -> StepView {
    StepView { effects: fx, ask: AskView::End { notices: items }, phase: PhaseView::Over }
}

/// The step that begins a round.
pub open spec fn round(timers: Timers) -> StepView {
    StepView { effects: Seq::empty(), ask: AskView::Tick, phase: PhaseView::Ticking { timers } }
}

/// `at - now`, or zero where that time is past.
pub open spec fn time_left(at: u128, now: u64) -> int {
    if at > now {
        at - now
    } else {
        0
    }
}

pub open spec fn least(a: int, b: int) -> int {
    if a <= b {
        a
    } else {
        b
    }
}

/// How long to pause: until the first of the points in time that the wait
/// watches, and at most the interval after which the agent's flags are looked
/// at again. A schedule that is past, or whose time cannot be read, does not
/// count.
pub open spec fn pause_length(t: Timers, now: u64, until_due_ms: Option<i64>) -> int {
    let a = least(time_left(t.deadline, now), FLAG_RECHECK_INTERVAL_SECONDS * SECOND);
    let b = match t.idle_at {
        Some(at) => least(a, time_left(at, now)),
        None => a,
    };
    let c = match t.reminder_at {
        Some(at) => least(b, time_left(at, now)),
        None => b,
    };
    match until_due_ms {
        Some(ms) => if ms > 0 {
            least(c, ms * 1_000_000)
        } else {
            c
        },
        None => c,
    }
}

/// The pause that ends a round.
pub open spec fn pause(t: Timers, now: u64, until_due_ms: Option<i64>) -> StepView {
    StepView {
        effects: Seq::empty(),
        ask: AskView::Pause { timeout: pause_length(t, now, until_due_ms) as u64 },
        phase: PhaseView::Pausing { timers: t },
    }
}

/// The last part of a round: end where the time is up, else pause.
pub open spec fn hold_step(r: Rules, t: Timers, k: TickView) -> StepView {
    if t.deadline <= k.now {
        if r.ladder_eligible && !r.ladder_override {
            StepView {
                effects: Seq::empty(),
                ask: AskView::NoteEmptyPoll,
                phase: PhaseView::EmptyPoll { tick: k },
            }
        } else {
            end(seq![EffectView::Unregister], Seq::empty())
        }
    } else {
        match k.due {
            Some(due) => StepView {
                effects: Seq::empty(),
                ask: AskView::UntilDue { due },
                phase: PhaseView::UntilDue { timers: t, tick: k },
            },
            None => pause(t, k.now, None),
        }
    }
}

/// The middle part of a round: gather events where a schedule is due.
pub open spec fn due_step(r: Rules, t: Timers, k: TickView) -> StepView {
    if k.due is Some && !text_before(k.now_iso, k.due->0) {
        StepView {
            effects: Seq::empty(),
            ask: AskView::Feed { now_iso: k.now_iso },
            phase: PhaseView::DueFeed { timers: t, tick: k, attempts: FEED_ATTEMPTS },
        }
    } else {
        hold_step(r, t, k)
    }
}

/// A round: an agent that was idle too long is told to stop, unless a schedule
/// keeps it; then it is reminded of its work where that is due; then schedules
/// are looked at; then the time.
pub open spec fn tick_step(r: Rules, t: Timers, k: TickView) -> StepView {
    if t.idle_at is Some && t.idle_at->0 <= k.now && k.due is None {
        end(
            seq![EffectView::Unregister],
            seq![NoticeView::Stop { reason: IDLE_STOP_REASON@, now: k.now_iso }],
        )
    } else if t.reminder_at is Some && t.reminder_at->0 <= k.now {
        StepView {
            effects: seq![EffectView::MarkReminded],
            ask: AskView::Backlog,
            phase: PhaseView::Backlog {
                timers: Timers {
                    reminder_at: Some((k.now + t.reminder_interval * SECOND) as u128),
                    ..t
                },
                tick: k,
            },
        }
    } else {
        due_step(r, t, k)
    }
}

/// The timers of a new wait.
pub open spec fn first_timers(
    r: Rules,
    now: u64,
    idle_remaining: Option<i64>,
    interval: u64,
    reminder_in: Option<u64>,
) -> Timers {
    Timers {
        deadline: if now + r.timeout <= u128::MAX {
            (now + r.timeout) as u128
        } else {
            u128::MAX
        },
        idle_at: match idle_remaining {
            Some(left) => Some(
                (now + (if left > 0 {
                    left as int
                } else {
                    0
                })) as u128,
            ),
            None => None,
        },
        reminder_at: match reminder_in {
            Some(d) => Some((now + d) as u128),
            None => None,
        },
        reminder_interval: interval,
        next_heartbeat: (now + r.heartbeat_interval) as u128,
        progress: 0,
        misses: 0,
    }
}

/// What follows when events were asked for: they are handed over where there
/// are any; a failure is tried again while attempts are left; else the wait
/// goes on with `otherwise`.
pub open spec fn fed_step(
    batch: Option<BatchView>,
    now_iso: Seq<char>,
    again: StepView,
    attempts: u32,
    otherwise: StepView,
) -> StepView {
    match batch {
        Some(b) => if b.events.len() > 0 {
            end(hand_over(b, now_iso), batch_notices(b))
        } else {
            otherwise
        },
        None => if attempts > 1 {
            again
        } else {
            otherwise
        },
    }
}

/// The slow path: what follows when, in `phase`, `e` is heard. What does not
/// fit the phase ends the wait.
pub open spec fn wait_next(r: Rules, phase: PhaseView, e: WaitEventView) -> StepView {
    match (phase, e) {
        (
            PhaseView::Opening,
            WaitEventView::Opened { now, idle_remaining, reminder_enabled, reminder_interval },
        ) => if reminder_enabled && reminder_interval > 0 {
            StepView {
                effects: Seq::empty(),
                ask: AskView::ReminderDueIn { interval: reminder_interval as u64 },
                phase: PhaseView::Reminding {
                    now,
                    idle_remaining,
                    interval: reminder_interval as u64,
                },
            }
        } else {
            round(first_timers(r, now, idle_remaining, 0, None))
        },
        (
            PhaseView::Reminding { now, idle_remaining, interval },
            WaitEventView::ReminderDueIn(d),
        ) => round(first_timers(r, now, idle_remaining, interval, Some(d))),
        (PhaseView::Ticking { timers }, WaitEventView::Ticked(k)) => tick_step(r, timers, k),
        (PhaseView::Backlog { timers, tick }, WaitEventView::Backlog(Some(backlog))) => end(
            seq![EffectView::ResetLadder, EffectView::Unregister],
            seq![NoticeView::Reminder { backlog, now: tick.now_iso }],
        ),
        (PhaseView::Backlog { timers, tick }, WaitEventView::Backlog(None)) => due_step(
            r,
            timers,
            tick,
        ),
        (PhaseView::DueFeed { timers, tick, attempts }, WaitEventView::Feed(batch)) => fed_step(
            batch,
            tick.now_iso,
            StepView {
                effects: Seq::empty(),
                ask: AskView::Feed { now_iso: tick.now_iso },
                phase: PhaseView::DueFeed { timers, tick, attempts: (attempts - 1) as u32 },
            },
            attempts,
            hold_step(r, timers, tick),
        ),
        (PhaseView::EmptyPoll { tick }, WaitEventView::Advice(advice)) => end(
            seq![EffectView::Unregister],
            match advice {
                Some(text) => seq![NoticeView::Advisory { text, now: tick.now_iso }],
                None => Seq::empty(),
            },
        ),
        (PhaseView::UntilDue { timers, tick }, WaitEventView::UntilDue(ms)) => pause(
            timers,
            tick.now,
            ms,
        ),
        (PhaseView::Pausing { timers }, WaitEventView::Revoked { reason, now_iso }) => end(
            seq![EffectView::Unregister],
            seq![NoticeView::Stop {
                reason: match reason {
                    Some(s) => s,
                    None => "auto_event_loop is OFF"@,
                },
                now: now_iso,
            }],
        ),
        (PhaseView::Pausing { timers }, WaitEventView::Superseded { now_iso }) => end(
            Seq::empty(),
            seq![NoticeView::Superseded { now: now_iso }],
        ),
        (PhaseView::Pausing { timers }, WaitEventView::Woken { now_iso }) => StepView {
            effects: Seq::empty(),
            ask: AskView::Feed { now_iso },
            phase: PhaseView::WakeFeed { timers, now_iso, attempts: FEED_ATTEMPTS },
        },
        (PhaseView::Pausing { timers }, WaitEventView::Paused { now }) => if r.heartbeat_enabled
            && timers.next_heartbeat <= now {
            if r.has_sink {
                let progress = if timers.progress < u64::MAX {
                    (timers.progress + 1) as u64
                } else {
                    timers.progress
                };
                StepView {
                    effects: Seq::empty(),
                    ask: AskView::Beat { progress },
                    phase: PhaseView::Beating { timers: Timers { progress, ..timers } },
                }
            } else {
                round(
                    Timers { next_heartbeat: (now + r.heartbeat_interval) as u128, ..timers },
                )
            }
        } else {
            round(timers)
        },
        (PhaseView::WakeFeed { timers, now_iso, attempts }, WaitEventView::Feed(batch)) =>
            fed_step(
            batch,
            now_iso,
            StepView {
                effects: Seq::empty(),
                ask: AskView::Feed { now_iso },
                phase: PhaseView::WakeFeed { timers, now_iso, attempts: (attempts - 1) as u32 },
            },
            attempts,
            round(timers),
        ),
        (PhaseView::Beating { timers }, WaitEventView::Beat { sent, now }) => if !sent
            && timers.misses + 1 >= MAX_HEARTBEAT_MISSES {
            end(seq![EffectView::Unregister], Seq::empty())
        } else {
            round(
                Timers {
                    next_heartbeat: (now + r.heartbeat_interval) as u128,
                    misses: if sent {
                        0
                    } else {
                        (timers.misses + 1) as u32
                    },
                    ..timers
                },
            )
        },
        _ => end(seq![EffectView::Unregister], Seq::empty()),
    }
}

fn end_with(fx: Vec<Effect>, items: Vec<Notice>) -> (s: Step)
    ensures
        s@ == end(effects(fx@), notices(items@)),
{
    Step { effects: fx, ask: Ask::End { notices: items }, phase: Phase::Over }
}

fn ask(question: Ask, phase: Phase) -> (s: Step)
    ensures
        s@ == (StepView { effects: Seq::empty(), ask: question@, phase: phase@ }),
{
    Step { effects: no_effects(), ask: question, phase }
}

fn begin_round(timers: Timers) -> (s: Step)
    ensures
        s@ == round(timers),
{
    ask(Ask::Tick, Phase::Ticking { timers })
}

fn left(at: u128, now: u64) -> (r: u128)
    ensures
        r == time_left(at, now),
{
    if at > now as u128 {
        at - now as u128
    } else {
        0
    }
}

fn smaller(a: u128, b: u128) -> (r: u128)
    ensures
        r == least(a as int, b as int),
{
    if a <= b {
        a
    } else {
        b
    }
}

fn take_pause(t: Timers, now: u64, until_due_ms: Option<i64>) -> (s: Step)
    ensures
        s@ == pause(t, now, until_due_ms),
{
    let a: u128 = smaller(left(t.deadline, now), FLAG_RECHECK_INTERVAL_SECONDS as u128 * SECOND);
    let b: u128 = match t.idle_at {
        Some(at) => smaller(a, left(at, now)),
        None => a,
    };
    let c: u128 = match t.reminder_at {
        Some(at) => smaller(b, left(at, now)),
        None => b,
    };
    let d: u128 = match until_due_ms {
        Some(ms) => if ms > 0 {
            smaller(c, ms as u128 * 1_000_000)
        } else {
            c
        },
        None => c,
    };
    ask(Ask::Pause { timeout: d as u64 }, Phase::Pausing { timers: t })
}

fn hold(r: Rules, t: Timers, k: Tick) -> (s: Step)
    ensures
        s@ == hold_step(r, t, k@),
{
    if t.deadline <= k.now as u128 {
        if r.ladder_eligible && !r.ladder_override {
            ask(Ask::NoteEmptyPoll, Phase::EmptyPoll { tick: k })
        } else {
            end_with(one_effect(Effect::Unregister), no_notices())
        }
    } else {
        match &k.due {
            Some(due) => {
                let question: Ask = Ask::UntilDue { due: own(due.as_str()) };
                ask(question, Phase::UntilDue { timers: t, tick: k })
            },
            None => take_pause(t, k.now, None),
        }
    }
}

fn look_at_schedules(r: Rules, t: Timers, k: Tick) -> (s: Step)
    ensures
        s@ == due_step(r, t, k@),
{
    let is_due: bool = match &k.due {
        Some(due) => !comes_before(k.now_iso.as_str(), due.as_str()),
        None => false,
    };
    if is_due {
        let question: Ask = Ask::Feed { now_iso: own(k.now_iso.as_str()) };
        ask(question, Phase::DueFeed { timers: t, tick: k, attempts: FEED_ATTEMPTS })
    } else {
        hold(r, t, k)
    }
}

fn run_round(r: Rules, t: Timers, k: Tick) -> (s: Step)
    ensures
        s@ == tick_step(r, t, k@),
{
    let idle: bool = match (t.idle_at, &k.due) {
        (Some(at), None) => at <= k.now as u128,
        _ => false,
    };
    if idle {
        return end_with(
            one_effect(Effect::Unregister),
            one_notice(Notice::Stop { reason: own(IDLE_STOP_REASON), now: k.now_iso }),
        );
    }
    let remind: bool = match t.reminder_at {
        Some(at) => at <= k.now as u128,
        None => false,
    };
    if remind {
        let timers: Timers = Timers {
            reminder_at: Some(k.now as u128 + t.reminder_interval as u128 * SECOND),
            ..t
        };
        return Step {
            effects: one_effect(Effect::MarkReminded),
            ask: Ask::Backlog,
            phase: Phase::Backlog { timers, tick: k },
        };
    }
    look_at_schedules(r, t, k)
}

fn start_timers(
    r: Rules,
    now: u64,
    idle_remaining: Option<i64>,
    interval: u64,
    reminder_in: Option<u64>,
) -> (t: Timers)
    ensures
        t == first_timers(r, now, idle_remaining, interval, reminder_in),
{
    let room: u128 = u128::MAX - now as u128;
    Timers {
        deadline: if r.timeout <= room {
            now as u128 + r.timeout
        } else {
            u128::MAX
        },
        idle_at: match idle_remaining {
            Some(n) => Some(
                now as u128 + (if n > 0 {
                    n as u128
                } else {
                    0
                }),
            ),
            None => None,
        },
        reminder_at: match reminder_in {
            Some(d) => Some(now as u128 + d as u128),
            None => None,
        },
        reminder_interval: interval,
        next_heartbeat: now as u128 + r.heartbeat_interval as u128,
        progress: 0,
        misses: 0,
    }
}

fn after_beat(r: Rules, timers: Timers, sent: bool, now: u64) -> (s: Step)
    ensures
        s@ == wait_next(r, PhaseView::Beating { timers }, WaitEventView::Beat { sent, now }),
{
    let next_heartbeat: u128 = now as u128 + r.heartbeat_interval as u128;
    if sent {
        begin_round(Timers { next_heartbeat, misses: 0, ..timers })
    } else if timers.misses >= MAX_HEARTBEAT_MISSES - 1 {
        end_with(one_effect(Effect::Unregister), no_notices())
    } else {
        begin_round(Timers { next_heartbeat, misses: timers.misses + 1, ..timers })
    }
}

fn after_pause(r: Rules, timers: Timers, now: u64) -> (s: Step)
    ensures
        s@ == wait_next(r, PhaseView::Pausing { timers }, WaitEventView::Paused { now }),
{
    if r.heartbeat_enabled && timers.next_heartbeat <= now as u128 {
        if r.has_sink {
            let progress: u64 = if timers.progress < u64::MAX {
                timers.progress + 1
            } else {
                timers.progress
            };
            ask(Ask::Beat { progress }, Phase::Beating { timers: Timers { progress, ..timers } })
        } else {
            begin_round(
                Timers { next_heartbeat: now as u128 + r.heartbeat_interval as u128, ..timers },
            )
        }
    } else {
        begin_round(timers)
    }
}

/// What to do next when, in `phase`, `event` is heard.
pub fn wait_for_events_slow_path(r: Rules, phase: Phase, event: WaitEvent) -> (s: Step)
    ensures
        s@ == wait_next(r, phase@, event@),
{
    match (phase, event) {
        (
            Phase::Opening,
            WaitEvent::Opened { now, idle_remaining, reminder_enabled, reminder_interval },
        ) => {
            if reminder_enabled && reminder_interval > 0 {
                let interval: u64 = reminder_interval as u64;
                ask(
                    Ask::ReminderDueIn { interval },
                    Phase::Reminding { now, idle_remaining, interval },
                )
            } else {
                begin_round(start_timers(r, now, idle_remaining, 0, None))
            }
        },
        (Phase::Reminding { now, idle_remaining, interval }, WaitEvent::ReminderDueIn(d)) => {
            begin_round(start_timers(r, now, idle_remaining, interval, Some(d)))
        },
        (Phase::Ticking { timers }, WaitEvent::Ticked(k)) => run_round(r, timers, k),
        (Phase::Backlog { timers, tick }, WaitEvent::Backlog(found)) => {
            match found {
                Some(backlog) => end_with(
                    two_effects(Effect::ResetLadder, Effect::Unregister),
                    one_notice(Notice::Reminder { backlog, now: tick.now_iso }),
                ),
                None => look_at_schedules(r, timers, tick),
            }
        },
        (Phase::DueFeed { timers, tick, attempts }, WaitEvent::Feed(batch)) => {
            match batch {
                Some(b) => {
                    proof {
                        crate::json::lemma_list_view(b.events@);
                    }
                    if b.events.len() > 0 {
                        end_with(
                            hand_over_effects(&b, tick.now_iso.as_str()),
                            event_notices(&b),
                        )
                    } else {
                        hold(r, timers, tick)
                    }
                },
                None => {
                    if attempts > 1 {
                        let question: Ask = Ask::Feed { now_iso: own(tick.now_iso.as_str()) };
                        ask(question, Phase::DueFeed { timers, tick, attempts: attempts - 1 })
                    } else {
                        hold(r, timers, tick)
                    }
                },
            }
        },
        (Phase::EmptyPoll { tick }, WaitEvent::Advice(advice)) => {
            let items: Vec<Notice> = match advice {
                Some(text) => one_notice(Notice::Advisory { text, now: tick.now_iso }),
                None => no_notices(),
            };
            end_with(one_effect(Effect::Unregister), items)
        },
        (Phase::UntilDue { timers, tick }, WaitEvent::UntilDue(ms)) => take_pause(
            timers,
            tick.now,
            ms,
        ),
        (Phase::Pausing { timers: _ }, WaitEvent::Revoked { reason, now_iso }) => {
            let why: String = match reason {
                Some(s) => s,
                None => own("auto_event_loop is OFF"),
            };
            end_with(
                one_effect(Effect::Unregister),
                one_notice(Notice::Stop { reason: why, now: now_iso }),
            )
        },
        (Phase::Pausing { timers: _ }, WaitEvent::Superseded { now_iso }) => end_with(
            no_effects(),
            one_notice(Notice::Superseded { now: now_iso }),
        ),
        (Phase::Pausing { timers }, WaitEvent::Woken { now_iso }) => {
            let question: Ask = Ask::Feed { now_iso: own(now_iso.as_str()) };
            ask(question, Phase::WakeFeed { timers, now_iso, attempts: FEED_ATTEMPTS })
        },
        (Phase::Pausing { timers }, WaitEvent::Paused { now }) => after_pause(r, timers, now),
        (Phase::WakeFeed { timers, now_iso, attempts }, WaitEvent::Feed(batch)) => {
            match batch {
                Some(b) => {
                    proof {
                        crate::json::lemma_list_view(b.events@);
                    }
                    if b.events.len() > 0 {
                        end_with(hand_over_effects(&b, now_iso.as_str()), event_notices(&b))
                    } else {
                        begin_round(timers)
                    }
                },
                None => {
                    if attempts > 1 {
                        let question: Ask = Ask::Feed { now_iso: own(now_iso.as_str()) };
                        ask(question, Phase::WakeFeed { timers, now_iso, attempts: attempts - 1 })
                    } else {
                        begin_round(timers)
                    }
                },
            }
        },
        (Phase::Beating { timers }, WaitEvent::Beat { sent, now }) => after_beat(
            r,
            timers,
            sent,
            now,
        ),
        _ => end_with(one_effect(Effect::Unregister), no_notices()),
    }
}

/// The first step of the slow path: read the clock and the settings.
pub fn open_slow_path() -> (s: Step)
    ensures
        s@ == (StepView {
            effects: Seq::empty(),
            ask: AskView::Open,
            phase: PhaseView::Opening,
        }),
{
    ask(Ask::Open, Phase::Opening)
}

// ---------------------------------------------------------------------
// Laws of the slow path
// ---------------------------------------------------------------------

/// Every end of a wait takes it out of the register, except that of a wait
/// which a newer one has replaced there.
pub proof fn every_end_unregisters(r: Rules, phase: PhaseView, e: WaitEventView)
    requires
        wait_next(r, phase, e).ask is End,
        !(phase is Pausing && e is Superseded),
    ensures
        wait_next(r, phase, e).effects.contains(EffectView::Unregister),
{
    let s = wait_next(r, phase, e);
    assert(s.effects.len() > 0);
    assert(s.effects[s.effects.len() - 1] == EffectView::Unregister);
}

/// A pause never outlasts the interval at which flags are looked at, nor the
/// wait itself, nor the time until the agent is told to stop or reminded.
pub proof fn pauses_are_bounded(t: Timers, now: u64, ms: Option<i64>)
    ensures
        0 <= pause_length(t, now, ms) <= FLAG_RECHECK_INTERVAL_SECONDS * SECOND,
        pause_length(t, now, ms) <= time_left(t.deadline, now),
        t.idle_at is Some ==> pause_length(t, now, ms) <= time_left(t.idle_at->0, now),
        t.reminder_at is Some ==> pause_length(t, now, ms) <= time_left(t.reminder_at->0, now),
        ms is Some && ms->0 > 0 ==> pause_length(t, now, ms) <= ms->0 * 1_000_000,
{
}

/// While a schedule is set, no agent is told to stop for being idle.
pub proof fn schedules_keep_agents(r: Rules, t: Timers, k: TickView)
    requires
        k.due is Some,
    ensures
        tick_step(r, t, k).ask matches AskView::End { notices } ==> notices.len() == 0,
{
}

/// An agent without a schedule that was idle too long is told to stop before
/// anything else is looked at.
pub proof fn idle_stop_comes_first(r: Rules, t: Timers, k: TickView)
    requires
        k.due is None,
        t.idle_at is Some,
        t.idle_at->0 <= k.now,
    ensures
        tick_step(r, t, k) == end(
            seq![EffectView::Unregister],
            seq![NoticeView::Stop { reason: IDLE_STOP_REASON@, now: k.now_iso }],
        ),
{
}

/// Events are never handed over without storing how far they reach.
pub proof fn handed_over_events_move_the_cursor(
    r: Rules,
    phase: PhaseView,
    e: WaitEventView,
    i: int,
)
    requires
        wait_next(r, phase, e).ask matches AskView::End { notices } && 0 <= i < notices.len()
            && notices[i] is Event,
    ensures
        e matches WaitEventView::Feed(Some(b)) && exists|now: Seq<char>|
            #[trigger] wait_next(r, phase, e).effects.contains(
                EffectView::AdvanceCursor { cursor: b.next_cursor, now },
            ),
{
    match (phase, e) {
        (PhaseView::DueFeed { timers, tick, attempts }, WaitEventView::Feed(Some(b))) => {
            let s = wait_next(r, phase, e);
            let moved = EffectView::AdvanceCursor { cursor: b.next_cursor, now: tick.now_iso };
            assert(s.effects[1] == moved);
            assert(s.effects.contains(moved));
        },
        (PhaseView::WakeFeed { timers, now_iso, attempts }, WaitEventView::Feed(Some(b))) => {
            let s = wait_next(r, phase, e);
            let moved = EffectView::AdvanceCursor { cursor: b.next_cursor, now: now_iso };
            assert(s.effects[1] == moved);
            assert(s.effects.contains(moved));
        },
        _ => {
            let n = wait_next(r, phase, e).ask->notices;
            assert(n.len() <= 1);
            assert(n.len() == 1 ==> !(n[0] is Event));
        },
    }
}

/// The timers of a phase, where it has some.
pub open spec fn timers_of(phase: PhaseView) -> Option<Timers> {
    match phase {
        PhaseView::Ticking { timers } => Some(timers),
        PhaseView::Backlog { timers, .. } => Some(timers),
        PhaseView::DueFeed { timers, .. } => Some(timers),
        PhaseView::UntilDue { timers, .. } => Some(timers),
        PhaseView::Pausing { timers } => Some(timers),
        PhaseView::WakeFeed { timers, .. } => Some(timers),
        PhaseView::Beating { timers } => Some(timers),
        _ => None,
    }
}

/// Whether a phase can occur in a wait: fewer heartbeats were missed than end
/// it, and attempts are left.
pub open spec fn phase_ok(phase: PhaseView) -> bool {
    &&& timers_of(phase) matches Some(t) ==> t.misses < MAX_HEARTBEAT_MISSES
    &&& phase matches PhaseView::DueFeed { attempts, .. } ==> 1 <= attempts <= FEED_ATTEMPTS
    &&& phase matches PhaseView::WakeFeed { attempts, .. } ==> 1 <= attempts <= FEED_ATTEMPTS
}

/// Every step keeps what holds of a wait: a second missed heartbeat in a row
/// ends it, and no feed is asked for more than three times.
pub proof fn phases_stay_ok(r: Rules, phase: PhaseView, e: WaitEventView)
    requires
        phase_ok(phase),
    ensures
        phase_ok(wait_next(r, phase, e).phase),
{
}

/// The deadline of a wait never moves.
pub proof fn the_deadline_stays(r: Rules, phase: PhaseView, e: WaitEventView)
    requires
        timers_of(phase) is Some,
        timers_of(wait_next(r, phase, e).phase) is Some,
    ensures
        timers_of(wait_next(r, phase, e).phase)->0.deadline == timers_of(phase)->0.deadline,
{
}

// ---------------------------------------------------------------------
// The entry
// ---------------------------------------------------------------------

/// A call of `wait_for_events`.
#[derive(Debug)]
pub struct WaitRequest {
    pub principal: Option<Principal>,
    pub arguments: Json,
    pub now: String,
    /// How long the caller wants to wait at most, where it said so.
    pub requested: Option<u64>,
    /// Whether the client can be kept waiting by heartbeats.
    pub heartbeat: bool,
    /// For how many seconds the client may hold, where it has a limit.
    pub hold_cap: Option<u64>,
    /// For how many seconds a client without heartbeats may hold.
    pub silent_hold: u64,
    /// Whether the client follows the progress of calls.
    pub progress_token_present: bool,
}

pub struct RequestView {
    pub principal: Option<PrincipalView>,
    pub arguments: JsonView,
    pub now: Seq<char>,
    pub requested: Option<u64>,
    pub heartbeat: bool,
    pub hold_cap: Option<u64>,
    pub silent_hold: u64,
    pub progress_token_present: bool,
}

impl View for WaitRequest {
    type V = RequestView;

    open spec fn view(&self) -> RequestView {
        RequestView {
            principal: match self.principal {
                Some(p) => Some(p@),
                None => None,
            },
            arguments: self.arguments@,
            now: self.now@,
            requested: self.requested,
            heartbeat: self.heartbeat,
            hold_cap: self.hold_cap,
            silent_hold: self.silent_hold,
            progress_token_present: self.progress_token_present,
        }
    }
}

/// What the entry hears.
#[allow(inconsistent_fields)]
#[derive(Debug)]
pub enum EntryEvent {
    /// How far the agent has read its events.
    Cursor(Option<String>),
    /// Whether the agent polled in vain so often that its own limit is
    /// overridden.
    Ladder { override_hold: bool },
    /// Whether the agent may listen, and why not.
    Flags { enabled: bool, reason: Option<String> },
    /// The events since the agent's position; none where they could not be
    /// gathered.
    Feed(Option<Batch>),
    /// How long the agent may yet be idle, where that is limited.
    IdleRemaining(Option<i64>),
    /// Whether a schedule is set.
    Scheduled(bool),
}

#[allow(inconsistent_fields)]
pub enum EntryEventView {
    Cursor(Option<Seq<char>>),
    Ladder { override_hold: bool },
    Flags { enabled: bool, reason: Option<Seq<char>> },
    Feed(Option<BatchView>),
    IdleRemaining(Option<i64>),
    Scheduled(bool),
}

impl View for EntryEvent {
    type V = EntryEventView;

    open spec fn view(&self) -> EntryEventView {
        match *self {
            EntryEvent::Cursor(s) => EntryEventView::Cursor(opt(s)),
            EntryEvent::Ladder { override_hold } => EntryEventView::Ladder { override_hold },
            EntryEvent::Flags { enabled, reason } => EntryEventView::Flags {
                enabled,
                reason: opt(reason),
            },
            EntryEvent::Feed(b) => EntryEventView::Feed(opt_batch(b)),
            EntryEvent::IdleRemaining(n) => EntryEventView::IdleRemaining(n),
            EntryEvent::Scheduled(b) => EntryEventView::Scheduled(b),
        }
    }
}

/// The meanings of what the entry heard so far.
pub open spec fn entry_events(v: Seq<EntryEvent>) -> Seq<EntryEventView> {
    v.map_values(|e: EntryEvent| e@)
}

/// What the entry asks.
#[allow(inconsistent_fields)]
#[derive(Debug)]
pub enum EntryAsk {
    StoredCursor,
    LadderDecision,
    Flags,
    Feed { since: Option<String> },
    IdleRemaining,
    Scheduled,
}

#[allow(inconsistent_fields)]
pub enum EntryAskView {
    StoredCursor,
    LadderDecision,
    Flags,
    Feed { since: Option<Seq<char>> },
    IdleRemaining,
    Scheduled,
}

impl View for EntryAsk {
    type V = EntryAskView;

    open spec fn view(&self) -> EntryAskView {
        match *self {
            EntryAsk::StoredCursor => EntryAskView::StoredCursor,
            EntryAsk::LadderDecision => EntryAskView::LadderDecision,
            EntryAsk::Flags => EntryAskView::Flags,
            EntryAsk::Feed { since } => EntryAskView::Feed { since: opt(since) },
            EntryAsk::IdleRemaining => EntryAskView::IdleRemaining,
            EntryAsk::Scheduled => EntryAskView::Scheduled,
        }
    }
}

/// How the entry goes on.
#[allow(inconsistent_fields)]
#[derive(Debug)]
pub enum EntryOutcome {
    /// There is a question to be answered first.
    Ask(EntryAsk),
    /// The call is over with this result.
    Refused(ToolResult),
    /// The call is over with this answer.
    Done { notices: Vec<Notice>, since: Option<String> },
    /// The agent waits.
    EnterSlowPath(SlowPathSetup),
}

#[allow(inconsistent_fields)]
pub enum EntryOutcomeView {
    Ask(EntryAskView),
    Refused(ResultView),
    Done { notices: Seq<NoticeView>, since: Option<Seq<char>> },
    EnterSlowPath(SetupView),
}

impl View for EntryOutcome {
    type V = EntryOutcomeView;

    open spec fn view(&self) -> EntryOutcomeView {
        match *self {
            EntryOutcome::Ask(a) => EntryOutcomeView::Ask(a@),
            EntryOutcome::Refused(r) => EntryOutcomeView::Refused(r@),
            EntryOutcome::Done { notices: v, since } => EntryOutcomeView::Done {
                notices: notices(v@),
                since: opt(since),
            },
            EntryOutcome::EnterSlowPath(s) => EntryOutcomeView::EnterSlowPath(s@),
        }
    }
}

/// A step of the entry: the effects, and how it goes on.
#[derive(Debug)]
pub struct EntryStep {
    pub effects: Vec<Effect>,
    pub outcome: EntryOutcome,
}

pub struct EntryStepView {
    pub effects: Seq<EffectView>,
    pub outcome: EntryOutcomeView,
}

impl View for EntryStep {
    type V = EntryStepView;

    open spec fn view(&self) -> EntryStepView {
        EntryStepView { effects: effects(self.effects@), outcome: self.outcome@ }
    }
}

/// For how long the client may hold: its own limit, a day where it has none;
/// without heartbeats no longer than a silent client may.
pub open spec fn base_hold(q: RequestView) -> int {
    let cap = match q.hold_cap {
        Some(n) => n,
        None => UNCAPPED_HOLD_CEILING_SECONDS,
    };
    (if q.heartbeat {
        cap as int
    } else {
        least(q.silent_hold as int, cap as int)
    }) * SECOND
}

/// The limit that the caller asks for.
pub open spec fn requested_hold(q: RequestView) -> Option<u64> {
    match q.requested {
        Some(n) => if n > 0 {
            Some(n)
        } else {
            None
        },
        None => None,
    }
}

/// Whether an empty wait counts as a short poll: the client could be kept
/// waiting, and the caller asks for less.
pub open spec fn on_ladder(q: RequestView) -> bool {
    q.heartbeat && q.progress_token_present && requested_hold(q) is Some && requested_hold(q)->0
        < base_hold(q)
}

/// How long the wait lasts at most: what the caller asks for shortens it,
/// unless that is overridden.
pub open spec fn hold_time(q: RequestView, overridden: bool) -> int {
    match requested_hold(q) {
        Some(n) => if overridden {
            base_hold(q)
        } else {
            least(base_hold(q), n as int)
        },
        None => base_hold(q),
    }
}

fn base_hold_of(q: &WaitRequest) -> (r: u128)
    ensures
        r == base_hold(q@),
{
    let cap: u64 = match q.hold_cap {
        Some(n) => n,
        None => UNCAPPED_HOLD_CEILING_SECONDS,
    };
    let seconds: u64 = if q.heartbeat {
        cap
    } else if q.silent_hold <= cap {
        q.silent_hold
    } else {
        cap
    };
    seconds as u128 * SECOND
}

/// The answer that ends the entry.
pub open spec fn entry_done(
    fx: Seq<EffectView>,
    items: Seq<NoticeView>,
    since: Option<Seq<char>>,
) -> EntryStepView {
    EntryStepView { effects: fx, outcome: EntryOutcomeView::Done { notices: items, since } }
}

/// A question of the entry.
pub open spec fn entry_ask(fx: Seq<EffectView>, a: EntryAskView) -> EntryStepView {
    EntryStepView { effects: fx, outcome: EntryOutcomeView::Ask(a) }
}

/// The entry of a wait, after what it heard so far.
///
/// Find where the agent stands, unless the caller says so. Decide how long to
/// hold. Register the wait. Stop where the agent may not listen. Hand over
/// events that are pending. Stop where the agent was idle too long and no
/// schedule keeps it. Else wait.
pub open spec fn entry_next(q: RequestView, h: Seq<EntryEventView>) -> EntryStepView {
    let cursor = cursor_in(q.arguments, "since"@);
    let o: int = if cursor is Absent {
        1
    } else {
        0
    };
    if !identified(q.principal) {
        EntryStepView {
            effects: Seq::empty(),
            outcome: EntryOutcomeView::Refused(
                ResultView::PermissionDenied { reason: WAIT_DENIED@ },
            ),
        }
    } else if cursor is Bad {
        EntryStepView {
            effects: Seq::empty(),
            outcome: EntryOutcomeView::Refused(
                ResultView::Invalid {
                    field: Some("since"@),
                    message: "since must be an ISO-UTC timestamp string"@,
                },
            ),
        }
    } else if h.len() < o {
        entry_ask(Seq::empty(), EntryAskView::StoredCursor)
    } else {
        let since = match cursor {
            CursorView::At(s) => Some(s),
            _ => match h[0] {
                EntryEventView::Cursor(s) => s,
                _ => None,
            },
        };
        if on_ladder(q) && h.len() == o {
            entry_ask(Seq::empty(), EntryAskView::LadderDecision)
        } else if on_ladder(q) {
            let overridden = h[o] matches EntryEventView::Ladder { override_hold } && override_hold;
            entry_from(q, since, overridden, h, o + 1)
        } else {
            entry_from(q, since, false, h, o)
        }
    }
}

/// The part of the entry from the registration on; `at` is the event that says
/// whether the agent may listen.
pub open spec fn entry_from(
    q: RequestView,
    since: Option<Seq<char>>,
    overridden: bool,
    h: Seq<EntryEventView>,
    at: int,
) -> EntryStepView {
    let k = h.len() - at;
    if k <= 0 {
        entry_ask(
            if on_ladder(q) {
                seq![EffectView::Register]
            } else {
                seq![EffectView::ResetLadder, EffectView::Register]
            },
            EntryAskView::Flags,
        )
    } else if !(h[at] matches EntryEventView::Flags { enabled, .. } && enabled) {
        entry_done(
            seq![EffectView::Unregister, EffectView::Drain],
            seq![NoticeView::Stop {
                reason: match h[at] {
                    EntryEventView::Flags { reason: Some(s), .. } => s,
                    _ => Seq::empty(),
                },
                now: q.now,
            }],
            since,
        )
    } else if k == 1 {
        entry_ask(seq![EffectView::Drain], EntryAskView::Feed { since })
    } else if h[at + 1] matches EntryEventView::Feed(Some(b)) && b.events.len() > 0 {
        let b = h[at + 1]->Feed_0->0;
        entry_done(hand_over(b, q.now), batch_notices(b), since)
    } else if k == 2 {
        entry_ask(Seq::empty(), EntryAskView::IdleRemaining)
    } else if k == 3 {
        entry_ask(Seq::empty(), EntryAskView::Scheduled)
    } else if (h[at + 2] matches EntryEventView::IdleRemaining(Some(n)) && n <= 0) && !(h[at + 3]
        matches EntryEventView::Scheduled(b) && b) {
        entry_done(
            seq![EffectView::Unregister, EffectView::Drain],
            seq![NoticeView::Stop { reason: IDLE_STOP_REASON@, now: q.now }],
            since,
        )
    } else {
        EntryStepView {
            effects: Seq::empty(),
            outcome: EntryOutcomeView::EnterSlowPath(
                SetupView {
                    agent_id: caller_agent(q.principal)->0,
                    since,
                    timeout: hold_time(q, overridden) as u128,
                    ladder_eligible: on_ladder(q),
                    ladder_override: overridden,
                    heartbeat_enabled: q.heartbeat && q.progress_token_present,
                },
            ),
        }
    }
}

fn entry_stop(reason: String, now: &str, since: Option<String>) -> (s: EntryStep)
    ensures
        s@ == entry_done(
            seq![EffectView::Unregister, EffectView::Drain],
            seq![NoticeView::Stop { reason: reason@, now: now@ }],
            opt(since),
        ),
{
    EntryStep {
        effects: two_effects(Effect::Unregister, Effect::Drain),
        outcome: EntryOutcome::Done {
            notices: one_notice(Notice::Stop { reason, now: own(now) }),
            since,
        },
    }
}

fn enter(
    q: &WaitRequest,
    agent_id: &str,
    since: Option<String>,
    eligible: bool,
    overridden: bool,
    history: &Vec<EntryEvent>,
    at: usize,
) -> (s: EntryStep)
    requires
        at <= history@.len(),
        caller_agent(q@.principal) == Some(agent_id@),
        eligible == on_ladder(q@),
    ensures
        s@ == entry_from(q@, opt(since), overridden, entry_events(history@), at as int),
{
    let k: usize = history.len() - at;
    if k == 0 {
        let fx: Vec<Effect> = if eligible {
            one_effect(Effect::Register)
        } else {
            two_effects(Effect::ResetLadder, Effect::Register)
        };
        return EntryStep { effects: fx, outcome: EntryOutcome::Ask(EntryAsk::Flags) };
    }
    match &history[at] {
        EntryEvent::Flags { enabled, reason } => {
            if !*enabled {
                let why: String = match reason {
                    Some(s) => own(s.as_str()),
                    None => {
                        let none: String = String::new();
                        proof {
                            assert(none@ =~= Seq::empty());
                        }
                        none
                    },
                };
                return entry_stop(why, q.now.as_str(), since);
            }
        },
        _ => {
            let none: String = String::new();
            proof {
                assert(none@ =~= Seq::empty());
            }
            return entry_stop(none, q.now.as_str(), since);
        },
    }
    if k == 1 {
        return EntryStep {
            effects: one_effect(Effect::Drain),
            outcome: EntryOutcome::Ask(EntryAsk::Feed { since }),
        };
    }
    match &history[at + 1] {
        EntryEvent::Feed(Some(b)) => {
            proof {
                crate::json::lemma_list_view(b.events@);
            }
            if b.events.len() > 0 {
                return EntryStep {
                    effects: hand_over_effects(b, q.now.as_str()),
                    outcome: EntryOutcome::Done { notices: event_notices(b), since },
                };
            }
        },
        _ => {},
    }
    if k == 2 {
        return EntryStep {
            effects: no_effects(),
            outcome: EntryOutcome::Ask(EntryAsk::IdleRemaining),
        };
    }
    if k == 3 {
        return EntryStep {
            effects: no_effects(),
            outcome: EntryOutcome::Ask(EntryAsk::Scheduled),
        };
    }
    let idle: bool = match &history[at + 2] {
        EntryEvent::IdleRemaining(Some(n)) => *n <= 0,
        _ => false,
    };
    let kept: bool = match &history[at + 3] {
        EntryEvent::Scheduled(b) => *b,
        _ => false,
    };
    if idle && !kept {
        return entry_stop(own(IDLE_STOP_REASON), q.now.as_str(), since);
    }
    let base: u128 = base_hold_of(q);
    let timeout: u128 = match q.requested {
        Some(n) => if n > 0 && !overridden && (n as u128) < base {
            n as u128
        } else {
            base
        },
        None => base,
    };
    EntryStep {
        effects: no_effects(),
        outcome: EntryOutcome::EnterSlowPath(
            SlowPathSetup {
                agent_id: own(agent_id),
                since,
                timeout,
                ladder_eligible: eligible,
                ladder_override: overridden,
                heartbeat_enabled: q.heartbeat && q.progress_token_present,
            },
        ),
    }
}

/// What to do next on entry, after what was heard so far.
pub fn wait_for_events_entry(q: &WaitRequest, history: &Vec<EntryEvent>) -> (s: EntryStep)
    ensures
        s@ == entry_next(q@, entry_events(history@)),
{
    let caller: Option<&Principal> = match &q.principal {
        Some(p) => Some(p),
        None => None,
    };
    if !crate::agent_communication_tools::is_identified_agent(caller) {
        return EntryStep {
            effects: no_effects(),
            outcome: EntryOutcome::Refused(
                ToolResult::PermissionDenied { reason: own(WAIT_DENIED) },
            ),
        };
    }
    let agent_id: &str = match agent_of(caller) {
        Some(id) => id,
        None => "",
    };
    let cursor: Cursor = read_cursor(&q.arguments, "since");
    match cursor {
        Cursor::Bad => {
            return EntryStep {
                effects: no_effects(),
                outcome: EntryOutcome::Refused(
                    ToolResult::Invalid {
                        field: Some(own("since")),
                        message: own("since must be an ISO-UTC timestamp string"),
                    },
                ),
            };
        },
        _ => {},
    }
    let o: usize = match cursor {
        Cursor::Absent => 1,
        _ => 0,
    };
    if history.len() < o {
        return EntryStep {
            effects: no_effects(),
            outcome: EntryOutcome::Ask(EntryAsk::StoredCursor),
        };
    }
    let since: Option<String> = match cursor {
        Cursor::At(s) => Some(own(s)),
        _ => match &history[0] {
            EntryEvent::Cursor(s) => copy_opt(s),
            _ => None,
        },
    };
    let base: u128 = base_hold_of(q);
    let eligible: bool = q.heartbeat && q.progress_token_present && match q.requested {
        Some(n) => n > 0 && (n as u128) < base,
        None => false,
    };
    if eligible {
        if history.len() == o {
            return EntryStep {
                effects: no_effects(),
                outcome: EntryOutcome::Ask(EntryAsk::LadderDecision),
            };
        }
        let overridden: bool = match &history[o] {
            EntryEvent::Ladder { override_hold } => *override_hold,
            _ => false,
        };
        enter(q, agent_id, since, true, overridden, history, o + 1)
    } else {
        enter(q, agent_id, since, false, false, history, o)
    }
}

/// Whatever the caller asks for, no wait lasts longer than its client may
/// hold.
pub proof fn callers_only_shorten_the_hold(q: RequestView, overridden: bool)
    ensures
        0 <= hold_time(q, overridden) <= base_hold(q),
        overridden ==> hold_time(q, overridden) == base_hold(q),
        requested_hold(q) is Some && !overridden ==> hold_time(q, overridden) <= requested_hold(
            q,
        )->0,
{
    assert(base_hold(q) >= 0) by (nonlinear_arith)
        requires
            base_hold(q) == (if q.heartbeat {
                (match q.hold_cap {
                    Some(n) => n,
                    None => UNCAPPED_HOLD_CEILING_SECONDS,
                }) as int
            } else {
                least(
                    q.silent_hold as int,
                    (match q.hold_cap {
                        Some(n) => n,
                        None => UNCAPPED_HOLD_CEILING_SECONDS,
                    }) as int,
                )
            }) * SECOND,
    ;
}

/// A call that is refused, or whose cursor is no text, registers nothing and
/// asks nothing.
pub proof fn refused_waits_do_nothing(q: RequestView, h: Seq<EntryEventView>)
    requires
        !identified(q.principal) || cursor_in(q.arguments, "since"@) is Bad,
    ensures
        entry_next(q, h).outcome is Refused,
        entry_next(q, h).effects.len() == 0,
{
}

/// Every answer that the entry gives takes the wait out of the register again.
pub proof fn every_entry_answer_unregisters(q: RequestView, h: Seq<EntryEventView>)
    requires
        entry_next(q, h).outcome is Done,
    ensures
        entry_next(q, h).effects.contains(EffectView::Unregister),
{
    let fx = entry_next(q, h).effects;
    assert(fx[0] == EffectView::Unregister || fx[3] == EffectView::Unregister);
}

/// `wait_for_events`: the events of an agent, as soon as there are any.
pub struct WaitForEventsTool;

impl WaitForEventsTool {
    /// The rules for the rounds of the wait that `setup` describes.
    pub fn rules(setup: &SlowPathSetup, has_sink: bool, heartbeat_interval: u64) -> (r: Rules)
        ensures
            r == (Rules {
                timeout: setup@.timeout,
                ladder_eligible: setup@.ladder_eligible,
                ladder_override: setup@.ladder_override,
                heartbeat_enabled: setup@.heartbeat_enabled,
                has_sink,
                heartbeat_interval,
            }),
    {
        Rules {
            timeout: setup.timeout,
            ladder_eligible: setup.ladder_eligible,
            ladder_override: setup.ladder_override,
            heartbeat_enabled: setup.heartbeat_enabled,
            has_sink,
            heartbeat_interval,
        }
    }
}

} // verus!
