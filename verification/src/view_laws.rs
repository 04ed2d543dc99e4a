//! What the specifications see of each value: what it holds.

use crate::event_loop::{Effect, EffectView, Notice, NoticeView, SlowPathSetup, WaitRequest};
use crate::principal::{Principal};
use crate::protocol::{Action, ActionRow, ActionView, AgentFilters, AgentRow, Call, Claim, ContextRow, Event, EventView, MessageRow, MetadataRow, NewAgent, NewContext, OutgoingMessage, ReviewedProfile};
use crate::text::{opt, texts};
use vstd::prelude::*;

verus! {

/// What is seen of an `AgentRow` is what it holds, each field under its own name.
pub proof fn agent_row_is_seen_as_it_is(x: AgentRow)
    ensures
        x@.token == x.token@,
        x@.agent_id == x.agent_id@,
        x@.created_at == x.created_at@,
        x@.status == x.status@,
        x@.current_task == opt(x.current_task),
        x@.working_directory == x.working_directory@,
        x@.color == opt(x.color),
        x@.terminated_at == opt(x.terminated_at),
        x@.updated_at == opt(x.updated_at),
        x@.aoe_session_id == opt(x.aoe_session_id),
        x@.auto_event_loop == x.auto_event_loop,
        x@.last_event_seen_at == opt(x.last_event_seen_at),
        x@.last_activity_at == opt(x.last_activity_at),
        x@.agent_role == x.agent_role@,
        x@.profile == opt(x.profile),
        x@.profile_updated_at == opt(x.profile_updated_at),
        x@.profile_reviewed_at == opt(x.profile_reviewed_at),
        x@.profile_updated_by == opt(x.profile_updated_by),
{
}

/// What is seen of an `ActionRow` is what it holds, each field under its own name.
pub proof fn action_row_is_seen_as_it_is(x: ActionRow)
    ensures
        x@.timestamp == x.timestamp@,
        x@.agent_id == x.agent_id@,
        x@.action_type == x.action_type@,
        x@.details == opt(x.details),
{
}

/// What is seen of a `NewContext` is what it holds, each field under its own name.
pub proof fn new_context_is_seen_as_it_is(x: NewContext)
    ensures
        x@.context_key == x.context_key@,
        x@.value == x.value@,
        x@.description == opt(x.description),
        x@.created_by == x.created_by@,
        x@.timestamp == x.timestamp@,
{
}

/// What is seen of a `MessageRow` is what it holds, each field under its own name.
pub proof fn message_row_is_seen_as_it_is(x: MessageRow)
    ensures
        x@.message_id == x.message_id@,
        x@.sender_id == x.sender_id@,
        x@.recipient_id == x.recipient_id@,
        x@.message_content == x.message_content@,
        x@.message_type == x.message_type@,
        x@.priority == x.priority@,
        x@.timestamp == x.timestamp@,
        x@.delivered == x.delivered,
        x@.read == x.read,
        x@.subject == opt(x.subject),
        x@.parent_message_id == opt(x.parent_message_id),
        x@.shown_subject == opt(x.shown_subject),
        x@.subject_is_placeholder == x.subject_is_placeholder,
{
}

/// What is seen of an `OutgoingMessage` is what it holds, each field under its own name.
pub proof fn outgoing_message_is_seen_as_it_is(x: OutgoingMessage)
    ensures
        x@.recipient_id == x.recipient_id@,
        x@.message_content == x.message_content@,
        x@.message_type == x.message_type@,
        x@.priority == x.priority@,
        x@.subject == opt(x.subject),
        x@.parent_message_id == opt(x.parent_message_id),
        x@.allow_worker_to_worker == x.allow_worker_to_worker,
        x@.now == x.now@,
{
}

/// What is seen of a `Claim` is what it holds, each field under its own name.
pub proof fn claim_is_seen_as_it_is(x: Claim)
    ensures
        x@.agent_id == x.agent_id@,
        x@.status == x.status@,
        x@.timestamp == x.timestamp@,
{
}

/// What is seen of a `MetadataRow` is what it holds, each field under its own name.
pub proof fn metadata_row_is_seen_as_it_is(x: MetadataRow)
    ensures
        x@.metadata == x.metadata@,
        x@.updated_by == opt(x.updated_by),
        x@.last_updated == opt(x.last_updated),
        x@.content_hash == opt(x.content_hash),
{
}

/// What is seen of a `ReviewedProfile` is what it holds, each field under its own name.
pub proof fn reviewed_profile_is_seen_as_it_is(x: ReviewedProfile)
    ensures
        x@.profile == opt(x.profile),
        x@.profile_updated_at == opt(x.profile_updated_at),
        x@.profile_reviewed_at == opt(x.profile_reviewed_at),
        x@.changed == x.changed,
{
}

/// What is seen of a `ContextRow` is what it holds, each field under its own name.
pub proof fn context_row_is_seen_as_it_is(x: ContextRow)
    ensures
        x@.context_key == x.context_key@,
        x@.value == x.value@,
        x@.description == opt(x.description),
        x@.created_at == opt(x.created_at),
        x@.created_by == opt(x.created_by),
        x@.updated_at == x.updated_at@,
        x@.updated_by == x.updated_by@,
        x@.updated == x.updated,
        x@.scalar_text == x.scalar_text@,
{
}

/// What is seen of an `AgentFilters` is what it holds, each field under its own name.
pub proof fn agent_filters_is_seen_as_it_is(x: AgentFilters)
    ensures
        x@.status == opt(x.status),
        x@.agent_id_pattern == opt(x.agent_id_pattern),
        x@.include_terminated == x.include_terminated,
        x@.created_after == opt(x.created_after),
        x@.created_before == opt(x.created_before),
        x@.sort_by == x.sort_by@,
        x@.sort_order == x.sort_order@,
        x@.limit == x.limit,
        x@.offset == x.offset,
{
}

/// What is seen of a `NewAgent` is what it holds, each field under its own name.
pub proof fn new_agent_is_seen_as_it_is(x: NewAgent)
    ensures
        x@.token == x.token@,
        x@.agent_id == x.agent_id@,
        x@.created_at == x.created_at@,
        x@.status == x.status@,
        x@.working_directory == x.working_directory@,
        x@.color == x.color@,
        x@.agent_role == x.agent_role@,
{
}

/// What is seen of a `Call` is what it holds, each field under its own name.
pub proof fn call_is_seen_as_it_is(x: Call)
    ensures
        x@.principal == match x.principal { Some(p) => Some(p@), None => None, },
        x@.arguments == x.arguments@,
        x@.now == x.now@,
        x@.instant == x.instant,
        x@.project_dir == x.project_dir@,
        x@.terminal_agent_statuses == texts(x.terminal_agent_statuses@),
        x@.terminal_task_statuses == texts(x.terminal_task_statuses@),
{
}

/// What is seen of each sort of `Action` is what it holds.
pub proof fn action_is_seen_as_it_is(x: Action)
    ensures
        x matches Action::ListActions { agent_id, action_type, limit } 
            ==> x@ == (ActionView::ListActions { agent_id: opt(agent_id), action_type: opt(action_type), limit }),
        x matches Action::LogAction { agent_id, action_type, task_id, details, timestamp } 
            ==> x@ == (ActionView::LogAction { agent_id: agent_id@, action_type: action_type@, task_id: opt(task_id), details: details@, timestamp: timestamp@ }),
        x matches Action::SeedManagerProfile { agent_id, profile, timestamp } 
            ==> x@ == (ActionView::SeedManagerProfile { agent_id: agent_id@, profile: profile@, timestamp: timestamp@ }),
        x matches Action::RotateToken { agent_id, token, timestamp } 
            ==> x@ == (ActionView::RotateToken { agent_id: agent_id@, token: token@, timestamp: timestamp@ }),
        x matches Action::UpdateAgent { agent_id, field, value, timestamp } 
            ==> x@ == (ActionView::UpdateAgent { agent_id: agent_id@, field, value: value@, timestamp: timestamp@ }),
        x matches Action::ReviewProfile { agent_id, profile, reviewer, timestamp } 
            ==> x@ == (ActionView::ReviewProfile { agent_id: agent_id@, profile: opt(profile), reviewer: reviewer@, timestamp: timestamp@ }),
        x matches Action::TerminateAgent { agent_id, timestamp } 
            ==> x@ == (ActionView::TerminateAgent { agent_id: agent_id@, timestamp: timestamp@ }),
        x matches Action::InsertTombstone { token, agent_id, timestamp } 
            ==> x@ == (ActionView::InsertTombstone { token: token@, agent_id: agent_id@, timestamp: timestamp@ }),
        x matches Action::RenameInMessages { from, to } 
            ==> x@ == (ActionView::RenameInMessages { from: from@, to: to@ }),
        x matches Action::RenameTaskCreator { from, to } 
            ==> x@ == (ActionView::RenameTaskCreator { from: from@, to: to@ }),
        x matches Action::RenameInActions { from, to } 
            ==> x@ == (ActionView::RenameInActions { from: from@, to: to@ }),
        x matches Action::Count { kind, agent_id } 
            ==> x@ == (ActionView::Count { kind, agent_id: agent_id@ }),
        x matches Action::ListSentMessages { agent_id, limit } 
            ==> x@ == (ActionView::ListSentMessages { agent_id: agent_id@, limit }),
        x matches Action::ListTaskTitles { agent_id, assigned, limit } 
            ==> x@ == (ActionView::ListTaskTitles { agent_id: agent_id@, assigned, limit }),
        x matches Action::ReleaseTask { task_id, status, timestamp } 
            ==> x@ == (ActionView::ReleaseTask { task_id: task_id@, status: opt(status), timestamp: timestamp@ }),
        x matches Action::PutSetting { key, value, updated_by, timestamp } 
            ==> x@ == (ActionView::PutSetting { key: key@, value: value@, updated_by: updated_by@, timestamp: timestamp@ }),
        x matches Action::GetSwitch { key, default_on } 
            ==> x@ == (ActionView::GetSwitch { key: key@, default_on }),
        x matches Action::ClaimFile { path, agent_id, status, timestamp } 
            ==> x@ == (ActionView::ClaimFile { path: path@, agent_id: agent_id@, status: status@, timestamp: timestamp@ }),
        x matches Action::PutMetadata { path, metadata, updated_by, timestamp } 
            ==> x@ == (ActionView::PutMetadata { path: path@, metadata: metadata@, updated_by: updated_by@, timestamp: timestamp@ }),
        x matches Action::SubjectFor { subject, message_content } 
            ==> x@ == (ActionView::SubjectFor { subject: opt(subject), message_content: message_content@ }),
        x matches Action::ListMessages { agent_id, include_sent, include_received, message_type, unread_only, limit } 
            ==> x@ == (ActionView::ListMessages { agent_id: agent_id@, include_sent, include_received, message_type: opt(message_type), unread_only, limit }),
        x matches Action::MarkRead { message_ids, recipient } 
            ==> x@ == (ActionView::MarkRead { message_ids: texts(message_ids@), recipient: recipient@ }),
        x matches Action::AssembleFeed { agent_id, since, now } 
            ==> x@ == (ActionView::AssembleFeed { agent_id: agent_id@, since: opt(since), now: now@ }),
        x matches Action::UpsertContext { context_key, value, description, description_provided, updated_by, timestamp } 
            ==> x@ == (ActionView::UpsertContext { context_key: context_key@, value: value@, description: opt(description), description_provided, updated_by: updated_by@, timestamp: timestamp@ }),
        x matches Action::DeliverWakes { context_keys, bulk } 
            ==> x@ == (ActionView::DeliverWakes { context_keys: texts(context_keys@), bulk }),
        x matches Action::WriteFile { path, text } 
            ==> x@ == (ActionView::WriteFile { path: path@, text: text@ }),
        x matches Action::AdvanceCursor { agent_id, cursor, timestamp } 
            ==> x@ == (ActionView::AdvanceCursor { agent_id: agent_id@, cursor: cursor@, timestamp: timestamp@ }),
{
}

/// What is seen of each sort of `Event` is what it holds.
pub proof fn event_is_seen_as_it_is(x: Event)
    ensures
        x matches Event::Subject { shown, placeholder } 
            ==> x@ == (EventView::Subject { shown: opt(shown), placeholder }),
{
}

/// What is seen of a `Principal` is what it holds, each field under its own name.
pub proof fn principal_is_seen_as_it_is(x: Principal)
    ensures
        x@.kind == x.kind,
        x@.user_id == opt(x.user_id),
        x@.agent_id == opt(x.agent_id),
        x@.project_name == opt(x.project_name),
        x@.agent_role == x.agent_role,
        x@.capabilities == x.capabilities,
        x@.actor_label == x.actor_label@,
        x@.sender_label == x.sender_label@,
        x@.operator_tier == x.operator_tier,
        x@.confirmed_operator_tier == x.confirmed_operator_tier,
{
}

/// What is seen of each sort of `Notice` is what it holds.
pub proof fn notice_is_seen_as_it_is(x: Notice)
    ensures
        x matches Notice::Stop { reason, now } 
            ==> x@ == (NoticeView::Stop { reason: reason@, now: now@ }),
        x matches Notice::Reminder { backlog, now } 
            ==> x@ == (NoticeView::Reminder { backlog: backlog@, now: now@ }),
        x matches Notice::Advisory { text, now } 
            ==> x@ == (NoticeView::Advisory { text: text@, now: now@ }),
{
}

/// What is seen of each sort of `Effect` is what it holds.
pub proof fn effect_is_seen_as_it_is(x: Effect)
    ensures
        x matches Effect::AdvanceCursor { cursor, now } 
            ==> x@ == (EffectView::AdvanceCursor { cursor: cursor@, now: now@ }),
{
}

/// What is seen of a `SlowPathSetup` is what it holds, each field under its own name.
pub proof fn slow_path_setup_is_seen_as_it_is(x: SlowPathSetup)
    ensures
        x@.agent_id == x.agent_id@,
        x@.since == opt(x.since),
        x@.timeout == x.timeout,
        x@.ladder_eligible == x.ladder_eligible,
        x@.ladder_override == x.ladder_override,
        x@.heartbeat_enabled == x.heartbeat_enabled,
{
}

/// What is seen of a `WaitRequest` is what it holds, each field under its own name.
pub proof fn wait_request_is_seen_as_it_is(x: WaitRequest)
    ensures
        x@.principal == match x.principal { Some(p) => Some(p@), None => None, },
        x@.arguments == x.arguments@,
        x@.now == x.now@,
        x@.requested == x.requested,
        x@.heartbeat == x.heartbeat,
        x@.hold_cap == x.hold_cap,
        x@.silent_hold == x.silent_hold,
        x@.progress_token_present == x.progress_token_present,
{
}

} // verus!
