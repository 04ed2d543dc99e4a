//! How each tool presents itself: a description for its callers and the schema
//! of its arguments.

use crate::catalog::ToolName;
use vstd::prelude::*;

verus! {

/// The longest path that the file tools' schemas admit, in characters.
pub const PATH_MAX_LEN: usize = 4096;

pub const VIEW_AUDIT_LOG_DESCRIPTION: &'static str =
    "Read recent audit-log entries. Operator-only.";

pub const VIEW_AUDIT_LOG_SCHEMA: &'static str = r#"{
        "type": "object",
        "properties": {
            "agent_id": {
                "type": "string",
                "description": "Optional: filter by agent ID"
            },
            "action": {
                "type": "string",
                "description": "Optional: filter by action type"
            },
            "limit": {
                "type": "integer",
                "description": "Maximum number of entries to return (default: 50, max: 200)",
                "default": 50
            }
        },
        "required": [],
        "additionalProperties": false
    }"#;

pub const GET_AGENT_TOKENS_DESCRIPTION: &'static str =
    "Retrieve agent tokens with advanced filtering. Operator-only.";

pub const GET_AGENT_TOKENS_SCHEMA: &'static str = r#"{
        "type": "object",
        "properties": {
            "filter_status": {"type": "string"},
            "filter_agent_id_pattern": {"type": "string"},
            "filter_created_after": {"type": "string"},
            "filter_created_before": {"type": "string"},
            "include_terminated": {"type": "boolean", "default": false},
            "include_sensitive_data": {"type": "boolean", "default": false},
            "limit": {"type": "integer", "default": 50},
            "offset": {"type": "integer", "default": 0},
            "sort_by": {"type": "string", "default": "created_at"},
            "sort_order": {"type": "string", "default": "DESC"}
        },
        "required": [],
        "additionalProperties": false
    }"#;

pub const VIEW_STATUS_DESCRIPTION: &'static str =
    "Report active agents + server status. Operator-only.";

pub const VIEW_STATUS_SCHEMA: &'static str = r#"{"type": "object", "properties": {}, "required": [], "additionalProperties": false}"#;

pub const REGISTER_AGENT_DESCRIPTION: &'static str =
    "Register an agent identity. Operator-only. No spawning -- returns a bearer token + a ready-to-paste .mcp.json snippet.";

pub const REGISTER_AGENT_SCHEMA: &'static str = r#"{
        "type": "object",
        "properties": {
            "name": {"type": "string", "description": "agent_id for the new row"},
            "agent_id": {"type": "string", "description": "Back-compat alias for name"},
            "role": {"type": "string", "description": "'worker' or 'manager', default worker"},
            "agent_role": {"type": "string", "description": "Back-compat alias for role"},
            "project_name": {"type": "string"},
            "host": {"type": "string"},
            "mount_prefix": {"type": "string"}
        },
        "required": [],
        "additionalProperties": false
    }"#;

pub const ROTATE_AGENT_TOKEN_DESCRIPTION: &'static str =
    "Replace an agent's bearer token, preserving its identity. The new token is shown ONCE.";

pub const ROTATE_AGENT_TOKEN_SCHEMA: &'static str = r#"{
        "type": "object",
        "properties": {"agent_id": {"type": "string"}},
        "required": ["agent_id"],
        "additionalProperties": false
    }"#;

pub const RESTORE_AGENT_DESCRIPTION: &'static str =
    "Reverse a soft-delete: flip a terminated agent's status back to 'created'.";

pub const RESTORE_AGENT_SCHEMA: &'static str = r#"{
        "type": "object",
        "properties": {"agent_id": {"type": "string"}},
        "required": ["agent_id"],
        "additionalProperties": false
    }"#;

pub const EDIT_AGENT_DESCRIPTION: &'static str =
    "Update mutable agent fields (color, working_directory, aoe_session_id, auto_event_loop, agent_role).";

pub const EDIT_AGENT_SCHEMA: &'static str = r#"{
        "type": "object",
        "properties": {
            "agent_id": {"type": "string"},
            "color": {"type": "string"},
            "working_directory": {"type": "string"},
            "aoe_session_id": {"type": "string"},
            "auto_event_loop": {"type": "boolean"},
            "agent_role": {"type": "string"}
        },
        "required": ["agent_id"],
        "additionalProperties": false
    }"#;

pub const TERMINATE_AGENT_DESCRIPTION: &'static str =
    "Soft-terminate an agent: revoke its token and flip its status. Operator-only.";

pub const TERMINATE_AGENT_SCHEMA: &'static str = r#"{
        "type": "object",
        "properties": {"agent_id": {"type": "string"}},
        "required": ["agent_id"],
        "additionalProperties": false
    }"#;

pub const PURGE_AGENT_DESCRIPTION: &'static str =
    "Hard-delete an agent and cascade-tombstone every reference. Irreversible. Operator-only.";

pub const PURGE_AGENT_SCHEMA: &'static str = r#"{
        "type": "object",
        "properties": {"agent_id": {"type": "string"}},
        "required": ["agent_id"],
        "additionalProperties": false
    }"#;

pub const WAIT_FOR_EVENTS_DESCRIPTION: &'static str =
    "Long-poll for new events addressed to the calling agent (direct messages, broadcasts, task assignments / changes). Returns immediately if events are already pending; otherwise blocks server-side until something arrives or the timeout elapses. Response is a JSON envelope {\"events\": [{type, timestamp, data}, ...], \"next_cursor\": \"<iso-ts>\"} — pass `next_cursor` as `since` on the next call to advance through the timeline.";

pub const WAIT_FOR_EVENTS_SCHEMA: &'static str = r#"{
        "type": "object",
        "properties": {
            "since": {
                "type": "string",
                "description": "ISO-UTC timestamp; only events with timestamp > since are returned. Pass the previous response's `next_cursor` to advance."
            },
            "timeout_seconds": {
                "type": "integer",
                "description": "Optional cap (seconds) on how long this call may block before returning an empty envelope. Normally OMIT this -- the server picks a client-appropriate hold (heartbeat long-hold for capable clients, a short silent hold otherwise). When provided it only SHORTENS the server's hold, never extends it.",
                "minimum": 1
            }
        },
        "required": [],
        "additionalProperties": false
    }"#;

pub const FETCH_EVENTS_SINCE_DESCRIPTION: &'static str =
    "Pure-DB catch-up: return events addressed to the calling agent that are newer than `cursor`, without blocking. Use this on session start (and after recovery from any wait_for_events error) to drain anything missed while disconnected. When `cursor` is omitted/null, falls back to the agent's persisted `last_event_seen_at`. Response is a JSON envelope {\"events\": [...], \"cursor\": \"<iso-ts>\"}; pass the returned `cursor` as the next `cursor` (or to wait_for_events as `since`) to advance through the timeline.";

pub const FETCH_EVENTS_SINCE_SCHEMA: &'static str = r#"{
        "type": "object",
        "properties": {
            "cursor": {
                "type": ["string", "null"],
                "description": "ISO-UTC timestamp; only events with timestamp > cursor are returned. Null/absent means start from the agent's persisted last_event_seen_at."
            }
        },
        "required": [],
        "additionalProperties": false
    }"#;

pub const SEND_AGENT_MESSAGE_DESCRIPTION: &'static str =
    "Send a message to another agent with permission checks and delivery options.";

pub const SEND_AGENT_MESSAGE_SCHEMA: &'static str = r#"{
        "type": "object",
        "properties": {
            "recipient_id": {"type": "string", "description": "ID of the agent to send message to", "maxLength": 256},
            "message": {"type": "string", "description": "Message content (max 4000 characters)"},
            "message_type": {"type": "string", "description": "Type of message", "enum": ["text", "assistance_request", "task_update", "notification", "stop_command"], "default": "text"},
            "priority": {"type": "string", "description": "Message priority", "enum": ["low", "normal", "high", "urgent"], "default": "normal"},
            "deliver_method": {"type": "string", "description": "Vestigial since Wave 7 (coordinator transition). Every message is stored in the DB and surfaced via wait_for_events / get_agent_messages -- conexus no longer pushes to a tmux session. Accepted for back-compat; the value is ignored.", "enum": ["tmux", "store", "both"], "default": "store"},
            "subject": {"type": ["string", "null"], "description": "Optional one-line subject for root messages. For a reply, use parent_message_id rather than an 'RE:' subject -- replies are threaded, not subject-bearing (subject is ignored / forced NULL when parent_message_id is set)."},
            "parent_message_id": {"type": ["string", "null"], "description": "How you reply / thread a message: set this to the message_id you are replying to and this message is linked as a reply under that thread. Prefer this over typing 'RE:' into the subject. Replies always have subject = NULL (the thread shows the root's subject as the conversation title)."}
        },
        "required": ["recipient_id", "message"],
        "additionalProperties": false
    }"#;

pub const BROADCAST_ADMIN_MESSAGE_DESCRIPTION: &'static str =
    "Admin-only tool to broadcast a message to all active agents.";

pub const BROADCAST_ADMIN_MESSAGE_SCHEMA: &'static str = r#"{
        "type": "object",
        "properties": {
            "message": {"type": "string", "description": "Message content to broadcast", "maxLength": 4000},
            "message_type": {"type": "string", "description": "Type of broadcast message", "enum": ["broadcast", "announcement", "system_alert"], "default": "broadcast"},
            "priority": {"type": "string", "description": "Message priority", "enum": ["low", "normal", "high", "urgent"], "default": "high"},
            "subject": {"type": ["string", "null"], "description": "Optional subject applied to every fan-out root message. Omit to let each per-recipient send go through the standard truncated-body preview path."}
        },
        "required": ["message"],
        "additionalProperties": false
    }"#;

pub const GET_AGENT_MESSAGES_DESCRIPTION: &'static str =
    "Retrieve messages for the current agent.";

pub const GET_AGENT_MESSAGES_SCHEMA: &'static str = r#"{
        "type": "object",
        "properties": {
            "include_sent": {"type": "boolean", "description": "Include messages sent by this agent", "default": false},
            "include_received": {"type": "boolean", "description": "Include messages received by this agent", "default": true},
            "mark_as_read": {"type": "boolean", "description": "Mark retrieved messages as read", "default": true},
            "limit": {"type": "integer", "description": "Maximum number of messages to retrieve", "default": 20, "minimum": 1, "maximum": 100},
            "message_type": {"type": "string", "description": "Filter by message type", "enum": ["text", "assistance_request", "task_update", "notification", "stop_command"]},
            "unread_only": {"type": "boolean", "description": "Only show unread messages", "default": false}
        },
        "required": [],
        "additionalProperties": false
    }"#;

pub const VIEW_AGENTS_DESCRIPTION: &'static str =
    "List every active agent on the team with their role and self-authored profile (what they do, what they work on, what to ask them about). Use this to find who to talk to or hand work to. Returns {\"agents\": [{agent_id, agent_role, profile, profile_updated_at}, ...]}.";

pub const VIEW_AGENTS_SCHEMA: &'static str = r#"{"type":"object","properties":{},"required":[],"additionalProperties":false}"#;

pub const UPDATE_AGENT_PROFILE_DESCRIPTION: &'static str =
    "Add or confirm your own self-authored profile (what you do, what you work on, what to ask you about) -- or, if you are a manager, curate a worker's profile. Omit `profile` to just confirm your existing one is still accurate (bumps the review timestamp without changing content). Managers may target a different worker via `agent_id`; managers may not edit another manager's profile.";

pub const UPDATE_AGENT_PROFILE_SCHEMA: &'static str = r#"{
        "type": "object",
        "properties": {
            "profile": {
                "type": "string",
                "description": "New profile text. Omit to confirm the existing profile is still accurate."
            },
            "agent_id": {
                "type": "string",
                "description": "Target agent (manager-only curation). Omit to edit/confirm your own profile."
            }
        },
        "required": [],
        "additionalProperties": false
    }"#;

pub const GET_SYSTEM_PROMPT_DESCRIPTION: &'static str =
    "Get the tailored system prompt for the currently authenticated agent, including connection instructions.";

pub const GET_SYSTEM_PROMPT_SCHEMA: &'static str = r#"{"type":"object","properties":{},"required":[],"additionalProperties":false}"#;

pub const CHECK_FILE_STATUS_DESCRIPTION: &'static str =
    "Check if a file is currently being used by another agent, based on the server's in-memory file map.";

pub const CHECK_FILE_STATUS_SCHEMA: &'static str = r#"{
        "type": "object",
        "properties": {
            "filepath": {
                "type": "string",
                "description": "Path to the file to check (can be relative to agent's CWD or absolute)",
                "maxLength": 4096
            }
        },
        "required": ["filepath"],
        "additionalProperties": false
    }"#;

pub const UPDATE_FILE_STATUS_DESCRIPTION: &'static str =
    "Update the status of a file in the server's in-memory map (e.g., claim for editing, reading, or release it).";

pub const UPDATE_FILE_STATUS_SCHEMA: &'static str = r#"{
        "type": "object",
        "properties": {
            "filepath": {
                "type": "string",
                "description": "Path to the file to update (can be relative or absolute)",
                "maxLength": 4096
            },
            "status": {
                "type": "string",
                "description": "New status for the file.",
                "enum": ["editing", "reading", "reviewing", "released"]
            }
        },
        "required": ["filepath", "status"],
        "additionalProperties": false
    }"#;

pub const VIEW_FILE_METADATA_DESCRIPTION: &'static str =
    "View stored metadata (e.g., purpose, components) for a specific file path.";

pub const VIEW_FILE_METADATA_SCHEMA: &'static str = r#"{
        "type": "object",
        "properties": {
            "filepath": {
                "type": "string",
                "description": "Path to the file (can be relative to agent's CWD or absolute)",
                "maxLength": 4096
            }
        },
        "required": ["filepath"],
        "additionalProperties": false
    }"#;

pub const UPDATE_FILE_METADATA_DESCRIPTION: &'static str =
    "Add or replace the entire metadata object for a specific file path. Admin only.";

pub const UPDATE_FILE_METADATA_SCHEMA: &'static str = r#"{
        "type": "object",
        "properties": {
            "filepath": {
                "type": "string",
                "description": "Path to the file (can be relative or absolute)",
                "maxLength": 4096
            },
            "metadata": {
                "type": "object",
                "description": "A JSON object containing the metadata to set for the file."
            }
        },
        "required": ["filepath", "metadata"],
        "additionalProperties": false
    }"#;

pub const VALIDATE_CONTEXT_CONSISTENCY_DESCRIPTION: &'static str =
    "Check for inconsistencies, conflicts, and quality issues in project context. Critical for preventing context poisoning.";

pub const VALIDATE_CONTEXT_CONSISTENCY_SCHEMA: &'static str = r#"{"type":"object","properties":{},"required":[],"additionalProperties":false}"#;

pub const VIEW_PROJECT_CONTEXT_DESCRIPTION: &'static str =
    "Smart project context viewer with health analysis, stale entry detection, and advanced filtering. Provides comprehensive insights into context quality and usage.";

pub const VIEW_PROJECT_CONTEXT_SCHEMA: &'static str = r#"{
        "type": "object",
        "properties": {
            "context_key": {
                "type": "string",
                "description": "Exact key to view (optional). If provided, search_query is ignored.",
                "maxLength": 256
            },
            "search_query": {
                "type": "string",
                "description": "Keyword search query (optional). Searches keys, descriptions, and values."
            },
            "show_health_analysis": {
                "type": "boolean",
                "description": "Include comprehensive health metrics and analysis (default: false)"
            },
            "show_stale_entries": {
                "type": "boolean",
                "description": "Show only entries older than 30 days needing review (default: false)"
            },
            "include_backup_info": {
                "type": "boolean",
                "description": "Include backup recommendations and info (default: false)"
            },
            "max_results": {
                "type": "integer",
                "description": "Maximum number of entries to return (default: 50)",
                "minimum": 1,
                "maximum": 200
            },
            "sort_by": {
                "type": "string",
                "description": "Sort entries by specified field (default: updated_at). 'last_updated' is accepted as a deprecated alias.",
                "enum": ["key", "updated_at", "last_updated", "size"],
                "default": "updated_at"
            }
        },
        "required": [],
        "additionalProperties": false
    }"#;

pub const CREATE_PROJECT_CONTEXT_DESCRIPTION: &'static str =
    "Create a NEW project context entry (insert-only; fails if the key already exists -- use update_project_context to change an existing key's value).";

pub const CREATE_PROJECT_CONTEXT_SCHEMA: &'static str = r#"{
        "type": "object",
        "properties": {
            "context_key": {
                "type": "string",
                "description": "The key for this context entry (letters, digits, and . _ / - only).",
                "maxLength": 256
            },
            "context_value": {
                "description": "The value to store (any JSON type)."
            },
            "description": {
                "type": "string",
                "description": "Optional human-readable description of this entry."
            }
        },
        "required": ["context_key", "context_value"],
        "additionalProperties": false
    }"#;

pub const UPDATE_PROJECT_CONTEXT_DESCRIPTION: &'static str =
    "Add or update a project context entry with a specific key. The value can be any JSON-serializable type.";

pub const UPDATE_PROJECT_CONTEXT_SCHEMA: &'static str = r#"{
        "type": "object",
        "properties": {
            "context_key": {
                "type": "string",
                "description": "The exact key for the context entry (e.g., 'api.service_x.url')."
            },
            "context_value": {
                "description": "The JSON-serializable value to set (e.g., string, number, list, dict).",
                "anyOf": [
                    {"type": "string"},
                    {"type": "number"},
                    {"type": "boolean"},
                    {"type": "null"},
                    {"type": "object", "additionalProperties": true},
                    {"type": "array"}
                ]
            },
            "description": {
                "type": "string",
                "description": "Optional description of this context entry."
            }
        },
        "required": ["context_key", "context_value"],
        "additionalProperties": false
    }"#;

pub const BULK_UPDATE_PROJECT_CONTEXT_DESCRIPTION: &'static str =
    "Update multiple project context entries atomically. Essential for large-scale context corrections.";

pub const BULK_UPDATE_PROJECT_CONTEXT_SCHEMA: &'static str = r#"{
        "type": "object",
        "properties": {
            "updates": {
                "type": "array",
                "description": "Array of update operations",
                "items": {
                    "type": "object",
                    "properties": {
                        "context_key": {
                            "type": "string",
                            "description": "The context key to update"
                        },
                        "context_value": {
                            "description": "The new value (any JSON-serializable type)",
                            "anyOf": [
                                {"type": "string"},
                                {"type": "number"},
                                {"type": "boolean"},
                                {"type": "null"},
                                {"type": "object"},
                                {"type": "array"}
                            ]
                        },
                        "description": {
                            "type": "string",
                            "description": "Optional description for this update"
                        }
                    },
                    "required": ["context_key", "context_value"],
                    "additionalProperties": false
                }
            }
        },
        "required": ["updates"],
        "additionalProperties": false
    }"#;

pub const DELETE_PROJECT_CONTEXT_DESCRIPTION: &'static str =
    "Delete project context entries permanently. Admin-only operation with safety checks for critical system keys.";

pub const DELETE_PROJECT_CONTEXT_SCHEMA: &'static str = r#"{
        "type": "object",
        "properties": {
            "context_key": {
                "type": "string",
                "description": "Single context key to delete (alternative to context_keys)"
            },
            "context_keys": {
                "type": "array",
                "description": "List of context keys to delete",
                "items": {"type": "string"},
                "minItems": 1
            },
            "force_delete": {
                "type": "boolean",
                "description": "Force deletion even for critical system keys (default: false)",
                "default": false
            }
        },
        "required": [],
        "additionalProperties": false
    }"#;

pub const BACKUP_PROJECT_CONTEXT_DESCRIPTION: &'static str =
    "Create comprehensive backup of all project context with health analysis. Admin-only operation for data safety and recovery.";

pub const BACKUP_PROJECT_CONTEXT_SCHEMA: &'static str = r#"{
        "type": "object",
        "properties": {
            "backup_name": {
                "type": "string",
                "pattern": "^[A-Za-z0-9._-]{1,128}$",
                "description": "Optional custom backup name (auto-generated if not provided). Slug — alphanumeric plus . _ - only, max 128 chars."
            },
            "include_health_report": {
                "type": "boolean",
                "description": "Include health analysis in backup (default: true)",
                "default": true
            }
        },
        "required": [],
        "additionalProperties": false
    }"#;

/// What a tool says of itself.
pub open spec fn described(tool: ToolName) -> Seq<char> {
    match tool {
        ToolName::ViewAuditLog => VIEW_AUDIT_LOG_DESCRIPTION@,
        ToolName::GetAgentTokens => GET_AGENT_TOKENS_DESCRIPTION@,
        ToolName::ViewStatus => VIEW_STATUS_DESCRIPTION@,
        ToolName::RegisterAgent => REGISTER_AGENT_DESCRIPTION@,
        ToolName::RotateAgentToken => ROTATE_AGENT_TOKEN_DESCRIPTION@,
        ToolName::RestoreAgent => RESTORE_AGENT_DESCRIPTION@,
        ToolName::EditAgent => EDIT_AGENT_DESCRIPTION@,
        ToolName::TerminateAgent => TERMINATE_AGENT_DESCRIPTION@,
        ToolName::PurgeAgent => PURGE_AGENT_DESCRIPTION@,
        ToolName::WaitForEvents => WAIT_FOR_EVENTS_DESCRIPTION@,
        ToolName::FetchEventsSince => FETCH_EVENTS_SINCE_DESCRIPTION@,
        ToolName::SendAgentMessage => SEND_AGENT_MESSAGE_DESCRIPTION@,
        ToolName::BroadcastAdminMessage => BROADCAST_ADMIN_MESSAGE_DESCRIPTION@,
        ToolName::GetAgentMessages => GET_AGENT_MESSAGES_DESCRIPTION@,
        ToolName::ViewAgents => VIEW_AGENTS_DESCRIPTION@,
        ToolName::UpdateAgentProfile => UPDATE_AGENT_PROFILE_DESCRIPTION@,
        ToolName::GetSystemPrompt => GET_SYSTEM_PROMPT_DESCRIPTION@,
        ToolName::CheckFileStatus => CHECK_FILE_STATUS_DESCRIPTION@,
        ToolName::UpdateFileStatus => UPDATE_FILE_STATUS_DESCRIPTION@,
        ToolName::ViewFileMetadata => VIEW_FILE_METADATA_DESCRIPTION@,
        ToolName::UpdateFileMetadata => UPDATE_FILE_METADATA_DESCRIPTION@,
        ToolName::ValidateContextConsistency => VALIDATE_CONTEXT_CONSISTENCY_DESCRIPTION@,
        ToolName::ViewProjectContext => VIEW_PROJECT_CONTEXT_DESCRIPTION@,
        ToolName::CreateProjectContext => CREATE_PROJECT_CONTEXT_DESCRIPTION@,
        ToolName::UpdateProjectContext => UPDATE_PROJECT_CONTEXT_DESCRIPTION@,
        ToolName::BulkUpdateProjectContext => BULK_UPDATE_PROJECT_CONTEXT_DESCRIPTION@,
        ToolName::DeleteProjectContext => DELETE_PROJECT_CONTEXT_DESCRIPTION@,
        ToolName::BackupProjectContext => BACKUP_PROJECT_CONTEXT_DESCRIPTION@,
    }
}

/// What `tool` says of itself.
pub fn description(tool: ToolName) -> (r: &'static str)
    ensures
        r@ == described(tool),
{
    match tool {
        ToolName::ViewAuditLog => VIEW_AUDIT_LOG_DESCRIPTION,
        ToolName::GetAgentTokens => GET_AGENT_TOKENS_DESCRIPTION,
        ToolName::ViewStatus => VIEW_STATUS_DESCRIPTION,
        ToolName::RegisterAgent => REGISTER_AGENT_DESCRIPTION,
        ToolName::RotateAgentToken => ROTATE_AGENT_TOKEN_DESCRIPTION,
        ToolName::RestoreAgent => RESTORE_AGENT_DESCRIPTION,
        ToolName::EditAgent => EDIT_AGENT_DESCRIPTION,
        ToolName::TerminateAgent => TERMINATE_AGENT_DESCRIPTION,
        ToolName::PurgeAgent => PURGE_AGENT_DESCRIPTION,
        ToolName::WaitForEvents => WAIT_FOR_EVENTS_DESCRIPTION,
        ToolName::FetchEventsSince => FETCH_EVENTS_SINCE_DESCRIPTION,
        ToolName::SendAgentMessage => SEND_AGENT_MESSAGE_DESCRIPTION,
        ToolName::BroadcastAdminMessage => BROADCAST_ADMIN_MESSAGE_DESCRIPTION,
        ToolName::GetAgentMessages => GET_AGENT_MESSAGES_DESCRIPTION,
        ToolName::ViewAgents => VIEW_AGENTS_DESCRIPTION,
        ToolName::UpdateAgentProfile => UPDATE_AGENT_PROFILE_DESCRIPTION,
        ToolName::GetSystemPrompt => GET_SYSTEM_PROMPT_DESCRIPTION,
        ToolName::CheckFileStatus => CHECK_FILE_STATUS_DESCRIPTION,
        ToolName::UpdateFileStatus => UPDATE_FILE_STATUS_DESCRIPTION,
        ToolName::ViewFileMetadata => VIEW_FILE_METADATA_DESCRIPTION,
        ToolName::UpdateFileMetadata => UPDATE_FILE_METADATA_DESCRIPTION,
        ToolName::ValidateContextConsistency => VALIDATE_CONTEXT_CONSISTENCY_DESCRIPTION,
        ToolName::ViewProjectContext => VIEW_PROJECT_CONTEXT_DESCRIPTION,
        ToolName::CreateProjectContext => CREATE_PROJECT_CONTEXT_DESCRIPTION,
        ToolName::UpdateProjectContext => UPDATE_PROJECT_CONTEXT_DESCRIPTION,
        ToolName::BulkUpdateProjectContext => BULK_UPDATE_PROJECT_CONTEXT_DESCRIPTION,
        ToolName::DeleteProjectContext => DELETE_PROJECT_CONTEXT_DESCRIPTION,
        ToolName::BackupProjectContext => BACKUP_PROJECT_CONTEXT_DESCRIPTION,
    }
}

/// The schema of a tool's arguments.
pub open spec fn schema_text(tool: ToolName) -> Seq<char> {
    match tool {
        ToolName::ViewAuditLog => VIEW_AUDIT_LOG_SCHEMA@,
        ToolName::GetAgentTokens => GET_AGENT_TOKENS_SCHEMA@,
        ToolName::ViewStatus => VIEW_STATUS_SCHEMA@,
        ToolName::RegisterAgent => REGISTER_AGENT_SCHEMA@,
        ToolName::RotateAgentToken => ROTATE_AGENT_TOKEN_SCHEMA@,
        ToolName::RestoreAgent => RESTORE_AGENT_SCHEMA@,
        ToolName::EditAgent => EDIT_AGENT_SCHEMA@,
        ToolName::TerminateAgent => TERMINATE_AGENT_SCHEMA@,
        ToolName::PurgeAgent => PURGE_AGENT_SCHEMA@,
        ToolName::WaitForEvents => WAIT_FOR_EVENTS_SCHEMA@,
        ToolName::FetchEventsSince => FETCH_EVENTS_SINCE_SCHEMA@,
        ToolName::SendAgentMessage => SEND_AGENT_MESSAGE_SCHEMA@,
        ToolName::BroadcastAdminMessage => BROADCAST_ADMIN_MESSAGE_SCHEMA@,
        ToolName::GetAgentMessages => GET_AGENT_MESSAGES_SCHEMA@,
        ToolName::ViewAgents => VIEW_AGENTS_SCHEMA@,
        ToolName::UpdateAgentProfile => UPDATE_AGENT_PROFILE_SCHEMA@,
        ToolName::GetSystemPrompt => GET_SYSTEM_PROMPT_SCHEMA@,
        ToolName::CheckFileStatus => CHECK_FILE_STATUS_SCHEMA@,
        ToolName::UpdateFileStatus => UPDATE_FILE_STATUS_SCHEMA@,
        ToolName::ViewFileMetadata => VIEW_FILE_METADATA_SCHEMA@,
        ToolName::UpdateFileMetadata => UPDATE_FILE_METADATA_SCHEMA@,
        ToolName::ValidateContextConsistency => VALIDATE_CONTEXT_CONSISTENCY_SCHEMA@,
        ToolName::ViewProjectContext => VIEW_PROJECT_CONTEXT_SCHEMA@,
        ToolName::CreateProjectContext => CREATE_PROJECT_CONTEXT_SCHEMA@,
        ToolName::UpdateProjectContext => UPDATE_PROJECT_CONTEXT_SCHEMA@,
        ToolName::BulkUpdateProjectContext => BULK_UPDATE_PROJECT_CONTEXT_SCHEMA@,
        ToolName::DeleteProjectContext => DELETE_PROJECT_CONTEXT_SCHEMA@,
        ToolName::BackupProjectContext => BACKUP_PROJECT_CONTEXT_SCHEMA@,
    }
}

/// The schema of `tool`'s arguments, as JSON text.
pub fn schema(tool: ToolName) -> (r: &'static str)
    ensures
        r@ == schema_text(tool),
{
    match tool {
        ToolName::ViewAuditLog => VIEW_AUDIT_LOG_SCHEMA,
        ToolName::GetAgentTokens => GET_AGENT_TOKENS_SCHEMA,
        ToolName::ViewStatus => VIEW_STATUS_SCHEMA,
        ToolName::RegisterAgent => REGISTER_AGENT_SCHEMA,
        ToolName::RotateAgentToken => ROTATE_AGENT_TOKEN_SCHEMA,
        ToolName::RestoreAgent => RESTORE_AGENT_SCHEMA,
        ToolName::EditAgent => EDIT_AGENT_SCHEMA,
        ToolName::TerminateAgent => TERMINATE_AGENT_SCHEMA,
        ToolName::PurgeAgent => PURGE_AGENT_SCHEMA,
        ToolName::WaitForEvents => WAIT_FOR_EVENTS_SCHEMA,
        ToolName::FetchEventsSince => FETCH_EVENTS_SINCE_SCHEMA,
        ToolName::SendAgentMessage => SEND_AGENT_MESSAGE_SCHEMA,
        ToolName::BroadcastAdminMessage => BROADCAST_ADMIN_MESSAGE_SCHEMA,
        ToolName::GetAgentMessages => GET_AGENT_MESSAGES_SCHEMA,
        ToolName::ViewAgents => VIEW_AGENTS_SCHEMA,
        ToolName::UpdateAgentProfile => UPDATE_AGENT_PROFILE_SCHEMA,
        ToolName::GetSystemPrompt => GET_SYSTEM_PROMPT_SCHEMA,
        ToolName::CheckFileStatus => CHECK_FILE_STATUS_SCHEMA,
        ToolName::UpdateFileStatus => UPDATE_FILE_STATUS_SCHEMA,
        ToolName::ViewFileMetadata => VIEW_FILE_METADATA_SCHEMA,
        ToolName::UpdateFileMetadata => UPDATE_FILE_METADATA_SCHEMA,
        ToolName::ValidateContextConsistency => VALIDATE_CONTEXT_CONSISTENCY_SCHEMA,
        ToolName::ViewProjectContext => VIEW_PROJECT_CONTEXT_SCHEMA,
        ToolName::CreateProjectContext => CREATE_PROJECT_CONTEXT_SCHEMA,
        ToolName::UpdateProjectContext => UPDATE_PROJECT_CONTEXT_SCHEMA,
        ToolName::BulkUpdateProjectContext => BULK_UPDATE_PROJECT_CONTEXT_SCHEMA,
        ToolName::DeleteProjectContext => DELETE_PROJECT_CONTEXT_SCHEMA,
        ToolName::BackupProjectContext => BACKUP_PROJECT_CONTEXT_SCHEMA,
    }
}

} // verus!
