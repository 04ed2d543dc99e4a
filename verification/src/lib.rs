//! The decision logic of the Conexus coordination tools.

pub mod access_laws;
pub mod admin_tools;
pub mod agent_communication_tools;
pub mod agent_laws;
pub mod agent_lifecycle;
pub mod agent_records;
pub mod agent_roster_tools;
pub mod agent_tools;
pub mod catalog;
pub mod completion_client;
pub mod context_backup;
pub mod context_deletion;
pub mod context_health;
pub mod context_laws;
pub mod context_window;
pub mod context_writing;
pub mod embedding_client;
pub mod env;
pub mod event_loop;
pub mod file_laws;
pub mod file_management_tools;
pub mod file_metadata_tools;
pub mod health_laws;
pub mod health_score;
pub mod json;
pub mod json_laws;
pub mod lifecycle_laws;
pub mod memory_laws;
pub mod message_laws;
pub mod message_suggestions;
pub mod principal;
pub mod profile_laws;
pub mod project_context_tools;
pub mod protocol;
pub mod rounding;
pub mod schemas;
pub mod setting_laws;
pub mod text;
pub mod text_laws;
pub mod view_laws;
pub mod wait_laws;
