use conexus_tools::event_loop::{
    open_slow_path, wait_for_events_entry, wait_for_events_slow_path, Ask, Batch, Effect,
    EntryAsk, EntryEvent, EntryOutcome, Notice, Phase, Rules, SlowPathSetup, Step, Tick,
    WaitEvent, WaitForEventsTool, WaitRequest, IDLE_STOP_REASON, MAX_HEARTBEAT_MISSES,
};
use conexus_tools::json::{jint, Field, Json};
use conexus_tools::principal::{Capabilities, Principal, PrincipalKind};
use conexus_tools::protocol::ToolResult;

const SEC: u64 = 1_000_000_000;

fn agent_bearer(agent_id: &str) -> Principal {
    Principal {
        kind: PrincipalKind::AgentBearer,
        user_id: None,
        agent_id: Some(agent_id.to_string()),
        project_name: None,
        agent_role: None,
        capabilities: Capabilities::Listed(vec![]),
        actor_label: agent_id.to_string(),
        sender_label: agent_id.to_string(),
        operator_tier: false,
        confirmed_operator_tier: false,
    }
}

fn request(since: Option<Json>, requested: Option<u64>) -> WaitRequest {
    let arguments = match since {
        Some(s) => Json::Object(vec![Field { key: "since".to_string(), value: s }]),
        None => Json::Object(vec![]),
    };
    WaitRequest {
        principal: Some(agent_bearer("alice")),
        arguments,
        now: "2026-01-01T00:01:00Z".to_string(),
        requested,
        heartbeat: false,
        hold_cap: None,
        silent_hold: 50,
        progress_token_present: false,
    }
}

fn flags() -> EntryEvent {
    EntryEvent::Flags { enabled: true, reason: None }
}

fn batch(n: usize) -> Option<Batch> {
    Some(Batch {
        events: (0..n).map(|_| Json::Null).collect(),
        next_cursor: "c1".to_string(),
    })
}

fn unregisters(effects: &Vec<Effect>) -> bool {
    effects.iter().any(|e| matches!(e, Effect::Unregister))
}

#[test]
fn pending_events_are_returned_at_once() {
    let q = request(None, None);
    let h = vec![EntryEvent::Cursor(None), flags(), EntryEvent::Feed(batch(1))];
    let s = wait_for_events_entry(&q, &h);
    assert!(matches!(
        s.effects.as_slice(),
        [
            Effect::ResetLadder,
            Effect::AdvanceCursor { .. },
            Effect::TouchActivity { .. },
            Effect::Unregister
        ]
    ));
    match s.outcome {
        EntryOutcome::Done { notices, since } => {
            assert_eq!(notices.len(), 1);
            assert_eq!(since, None);
        }
        other => panic!("{other:?}"),
    }
}

#[test]
fn the_entry_asks_in_order() {
    let q = request(None, None);
    let mut h: Vec<EntryEvent> = vec![];
    let ask = |h: &Vec<EntryEvent>| match wait_for_events_entry(&q, h).outcome {
        EntryOutcome::Ask(a) => a,
        other => panic!("{other:?}"),
    };
    assert!(matches!(ask(&h), EntryAsk::StoredCursor));
    h.push(EntryEvent::Cursor(Some("c0".to_string())));
    let s = wait_for_events_entry(&q, &h);
    assert!(matches!(s.effects.as_slice(), [Effect::ResetLadder, Effect::Register]));
    assert!(matches!(ask(&h), EntryAsk::Flags));
    h.push(flags());
    match ask(&h) {
        EntryAsk::Feed { since } => assert_eq!(since.as_deref(), Some("c0")),
        other => panic!("{other:?}"),
    }
    h.push(EntryEvent::Feed(None));
    assert!(matches!(ask(&h), EntryAsk::IdleRemaining));
    h.push(EntryEvent::IdleRemaining(None));
    assert!(matches!(ask(&h), EntryAsk::Scheduled));
    h.push(EntryEvent::Scheduled(false));
    match wait_for_events_entry(&q, &h).outcome {
        EntryOutcome::EnterSlowPath(setup) => {
            assert_eq!(setup.agent_id, "alice");
            assert_eq!(setup.timeout, 50 * SEC as u128);
            assert!(!setup.ladder_eligible);
        }
        other => panic!("{other:?}"),
    }
}

#[test]
fn an_agent_that_may_not_listen_is_told_to_stop() {
    let q = request(Some(Json::Text("c".to_string())), None);
    let h = vec![EntryEvent::Flags { enabled: false, reason: Some("off".to_string()) }];
    let s = wait_for_events_entry(&q, &h);
    assert!(unregisters(&s.effects));
    match s.outcome {
        EntryOutcome::Done { notices, since } => {
            assert!(matches!(&notices[0], Notice::Stop { reason, .. } if reason == "off"));
            assert_eq!(since.as_deref(), Some("c"));
        }
        other => panic!("{other:?}"),
    }
}

#[test]
fn an_idle_agent_stops_before_it_waits_unless_a_schedule_keeps_it() {
    let q = request(Some(Json::Text("c".to_string())), None);
    let h = |kept: bool| {
        vec![
            flags(),
            EntryEvent::Feed(batch(0)),
            EntryEvent::IdleRemaining(Some(0)),
            EntryEvent::Scheduled(kept),
        ]
    };
    match wait_for_events_entry(&q, &h(false)).outcome {
        EntryOutcome::Done { notices, .. } => {
            assert!(matches!(&notices[0], Notice::Stop { reason, .. } if reason == IDLE_STOP_REASON));
        }
        other => panic!("{other:?}"),
    }
    assert!(matches!(
        wait_for_events_entry(&q, &h(true)).outcome,
        EntryOutcome::EnterSlowPath(_)
    ));
}

#[test]
fn bad_cursors_and_strangers_register_nothing() {
    let s = wait_for_events_entry(&request(Some(jint(12345)), None), &vec![]);
    assert!(s.effects.is_empty());
    match s.outcome {
        EntryOutcome::Refused(ToolResult::Invalid { field, .. }) => {
            assert_eq!(field.as_deref(), Some("since"));
        }
        other => panic!("{other:?}"),
    }
    let mut q = request(None, None);
    q.principal = None;
    let s = wait_for_events_entry(&q, &vec![]);
    assert!(s.effects.is_empty());
    assert!(matches!(
        s.outcome,
        EntryOutcome::Refused(ToolResult::PermissionDenied { .. })
    ));
}

fn hold(q: &WaitRequest, ladder: Option<bool>) -> SlowPathSetup {
    let mut h = vec![];
    if let Some(o) = ladder {
        h.push(EntryEvent::Ladder { override_hold: o });
    }
    h.push(flags());
    h.push(EntryEvent::Feed(None));
    h.push(EntryEvent::IdleRemaining(None));
    h.push(EntryEvent::Scheduled(false));
    match wait_for_events_entry(q, &h).outcome {
        EntryOutcome::EnterSlowPath(s) => s,
        other => panic!("{other:?}"),
    }
}

#[test]
fn callers_shorten_the_hold_until_they_are_overridden() {
    let mut q = request(Some(Json::Text("c".to_string())), Some(5 * SEC));
    assert_eq!(hold(&q, None).timeout, 5 * SEC as u128);
    q.requested = Some(500 * SEC);
    assert_eq!(hold(&q, None).timeout, 50 * SEC as u128);
    q.heartbeat = true;
    q.progress_token_present = true;
    q.requested = Some(5 * SEC);
    let s = hold(&q, Some(false));
    assert!(s.ladder_eligible && !s.ladder_override && s.heartbeat_enabled);
    assert_eq!(s.timeout, 5 * SEC as u128);
    let s = hold(&q, Some(true));
    assert!(s.ladder_override);
    assert_eq!(s.timeout, 86400 * SEC as u128);
    q.hold_cap = Some(10);
    assert_eq!(hold(&q, Some(true)).timeout, 10 * SEC as u128);
    q.requested = Some(0);
    assert_eq!(hold(&q, None).timeout, 10 * SEC as u128);
}

fn rules() -> Rules {
    let setup = SlowPathSetup {
        agent_id: "bob".to_string(),
        since: None,
        timeout: 60 * SEC as u128,
        ladder_eligible: false,
        ladder_override: false,
        heartbeat_enabled: true,
    };
    WaitForEventsTool::rules(&setup, true, 25 * SEC)
}

fn opened(idle: Option<i64>) -> Phase {
    assert!(matches!(open_slow_path().ask, Ask::Open));
    let e = WaitEvent::Opened {
        now: 0,
        idle_remaining: idle,
        reminder_enabled: false,
        reminder_interval: 3600,
    };
    wait_for_events_slow_path(rules(), Phase::Opening, e).phase
}

fn tick(now: u64, due: Option<&str>) -> WaitEvent {
    WaitEvent::Ticked(Tick {
        now,
        now_iso: "2026-01-01T00:00:10Z".to_string(),
        due: due.map(str::to_string),
    })
}

fn end_of(s: Step) -> (Vec<Effect>, Vec<Notice>) {
    match s.ask {
        Ask::End { notices } => (s.effects, notices),
        other => panic!("{other:?}"),
    }
}

fn pausing(idle: Option<i64>) -> Phase {
    let s = wait_for_events_slow_path(rules(), opened(idle), tick(0, None));
    assert!(matches!(s.ask, Ask::Pause { .. }));
    s.phase
}

#[test]
fn the_deadline_ends_a_wait_with_nothing() {
    let s = wait_for_events_slow_path(rules(), opened(None), tick(60 * SEC, None));
    let (effects, notices) = end_of(s);
    assert!(unregisters(&effects));
    assert!(notices.is_empty());
}

#[test]
fn a_pause_lasts_until_the_first_thing_to_watch() {
    let pause = |idle: Option<i64>, now: u64| {
        match wait_for_events_slow_path(rules(), opened(idle), tick(now, None)).ask {
            Ask::Pause { timeout } => timeout,
            other => panic!("{other:?}"),
        }
    };
    assert_eq!(pause(None, 0), 2 * SEC);
    assert_eq!(pause(None, 59 * SEC), SEC);
    assert_eq!(pause(Some(500_000_000), 0), 500_000_000);
    let s = wait_for_events_slow_path(rules(), opened(None), tick(0, Some("2026-01-01T00:00:11Z")));
    assert!(matches!(s.ask, Ask::UntilDue { .. }));
    match wait_for_events_slow_path(rules(), s.phase, WaitEvent::UntilDue(Some(700))).ask {
        Ask::Pause { timeout } => assert_eq!(timeout, 700_000_000),
        other => panic!("{other:?}"),
    }
}

#[test]
fn an_idle_agent_stops_unless_a_schedule_keeps_it() {
    let s = wait_for_events_slow_path(rules(), opened(Some(SEC as i64)), tick(SEC, None));
    let (effects, notices) = end_of(s);
    assert!(unregisters(&effects));
    assert!(matches!(&notices[0], Notice::Stop { reason, .. } if reason == IDLE_STOP_REASON));
    let s = wait_for_events_slow_path(
        rules(),
        opened(Some(SEC as i64)),
        tick(SEC, Some("2026-01-01T00:00:11Z")),
    );
    assert!(matches!(s.ask, Ask::UntilDue { .. }));
}

#[test]
fn a_due_schedule_is_fired_and_tried_three_times() {
    let mut s =
        wait_for_events_slow_path(rules(), opened(None), tick(0, Some("2026-01-01T00:00:10Z")));
    for _ in 0..3 {
        assert!(matches!(s.ask, Ask::Feed { .. }));
        s = wait_for_events_slow_path(rules(), s.phase, WaitEvent::Feed(None));
    }
    assert!(matches!(s.ask, Ask::UntilDue { .. }));
    let s = wait_for_events_slow_path(rules(), opened(None), tick(0, Some("2026-01-01T00:00:10Z")));
    let s = wait_for_events_slow_path(rules(), s.phase, WaitEvent::Feed(batch(2)));
    let (effects, notices) = end_of(s);
    assert_eq!(notices.len(), 2);
    assert!(unregisters(&effects));
    assert!(matches!(&effects[1], Effect::AdvanceCursor { cursor, .. } if cursor == "c1"));
}

#[test]
fn reminders_come_with_a_backlog_and_are_put_off_without() {
    let e = WaitEvent::Opened {
        now: 0,
        idle_remaining: None,
        reminder_enabled: true,
        reminder_interval: 10,
    };
    let s = wait_for_events_slow_path(rules(), Phase::Opening, e);
    assert!(matches!(s.ask, Ask::ReminderDueIn { interval: 10 }));
    let s = wait_for_events_slow_path(rules(), s.phase, WaitEvent::ReminderDueIn(SEC));
    let s = wait_for_events_slow_path(rules(), s.phase, tick(SEC, None));
    assert!(matches!(s.effects.as_slice(), [Effect::MarkReminded]));
    assert!(matches!(s.ask, Ask::Backlog));
    let s = wait_for_events_slow_path(rules(), s.phase, WaitEvent::Backlog(None));
    match &s.phase {
        Phase::Pausing { timers } => assert_eq!(timers.reminder_at, Some(11 * SEC as u128)),
        other => panic!("{other:?}"),
    }
    let s = wait_for_events_slow_path(rules(), s.phase, WaitEvent::Paused { now: 2 * SEC });
    let s = wait_for_events_slow_path(rules(), s.phase, tick(11 * SEC, None));
    let s = wait_for_events_slow_path(rules(), s.phase, WaitEvent::Backlog(Some(Json::Null)));
    let (effects, notices) = end_of(s);
    assert!(matches!(effects.as_slice(), [Effect::ResetLadder, Effect::Unregister]));
    assert!(matches!(&notices[0], Notice::Reminder { .. }));
}

#[test]
fn a_wake_delivers_events_or_goes_on() {
    let woken = || WaitEvent::Woken { now_iso: "n".to_string() };
    let s = wait_for_events_slow_path(rules(), pausing(None), woken());
    let s = wait_for_events_slow_path(rules(), s.phase, WaitEvent::Feed(batch(1)));
    assert_eq!(end_of(s).1.len(), 1);
    let s = wait_for_events_slow_path(rules(), pausing(None), woken());
    let s = wait_for_events_slow_path(rules(), s.phase, WaitEvent::Feed(batch(0)));
    assert!(matches!(s.ask, Ask::Tick));
}

#[test]
fn a_superseded_wait_leaves_the_register_alone() {
    let e = WaitEvent::Superseded { now_iso: "n".to_string() };
    let (effects, notices) = end_of(wait_for_events_slow_path(rules(), pausing(None), e));
    assert!(effects.is_empty());
    assert!(matches!(&notices[0], Notice::Superseded { .. }));
}

#[test]
fn a_revoked_wait_says_why() {
    let revoked = |reason: Option<&str>| {
        let e = WaitEvent::Revoked {
            reason: reason.map(str::to_string),
            now_iso: "n".to_string(),
        };
        let (effects, notices) = end_of(wait_for_events_slow_path(rules(), pausing(None), e));
        assert!(unregisters(&effects));
        match notices.into_iter().next().unwrap() {
            Notice::Stop { reason, .. } => reason,
            other => panic!("{other:?}"),
        }
    };
    assert_eq!(revoked(Some("agent terminated")), "agent terminated");
    assert_eq!(revoked(None), "auto_event_loop is OFF");
}

#[test]
fn heartbeats_are_sent_at_their_interval() {
    let s = wait_for_events_slow_path(rules(), pausing(None), WaitEvent::Paused { now: 24 * SEC });
    assert!(matches!(s.ask, Ask::Tick));
    let s = wait_for_events_slow_path(rules(), pausing(None), WaitEvent::Paused { now: 25 * SEC });
    assert!(matches!(s.ask, Ask::Beat { progress: 1 }));
    let s = wait_for_events_slow_path(
        rules(),
        s.phase,
        WaitEvent::Beat { sent: true, now: 26 * SEC },
    );
    match s.phase {
        Phase::Ticking { timers } => {
            assert_eq!(timers.next_heartbeat, 51 * SEC as u128);
            assert_eq!(timers.misses, 0);
        }
        other => panic!("{other:?}"),
    }
}

#[test]
fn missed_heartbeats_end_a_wait() {
    let mut phase = pausing(None);
    let mut now = 25 * SEC;
    for n in 1..=MAX_HEARTBEAT_MISSES {
        let s = wait_for_events_slow_path(rules(), phase, WaitEvent::Paused { now });
        assert!(matches!(s.ask, Ask::Beat { .. }));
        let s = wait_for_events_slow_path(rules(), s.phase, WaitEvent::Beat { sent: false, now });
        if n == MAX_HEARTBEAT_MISSES {
            let (effects, notices) = end_of(s);
            assert!(unregisters(&effects));
            assert!(notices.is_empty());
            return;
        }
        now = now + 25 * SEC;
        phase = wait_for_events_slow_path(rules(), s.phase, tick(now, None)).phase;
    }
    unreachable!();
}

#[test]
fn short_polls_in_vain_are_given_advice() {
    let mut r = rules();
    r.ladder_eligible = true;
    let s = wait_for_events_slow_path(r, opened(None), tick(60 * SEC, None));
    assert!(matches!(s.ask, Ask::NoteEmptyPoll));
    let s = wait_for_events_slow_path(r, s.phase, WaitEvent::Advice(Some("hold".to_string())));
    let (effects, notices) = end_of(s);
    assert!(unregisters(&effects));
    assert!(matches!(&notices[0], Notice::Advisory { text, .. } if text == "hold"));
}

#[test]
fn what_does_not_fit_ends_the_wait() {
    let s = wait_for_events_slow_path(rules(), Phase::Over, WaitEvent::Paused { now: 0 });
    assert!(unregisters(&end_of(s).0));
}
