//! The prompt that tells an agent how to work with its team.

use crate::admin_tools::{str_or, text_or};
use crate::context_window::ends_in;
use crate::principal::{agent_of, caller_agent};
use crate::protocol::{
    events, failed, failed_view, Action, ActionView, AgentRow, AgentRowView, Call, CallView, Event,
    EventView, ResultView, ToolResult,
};
use crate::text::{cat4, cat7, holds, holds_at, own, same};
use vstd::prelude::*;

verus! {

/// The beginning of the prompt, up to the lines on the agent itself.
pub const PROMPT_HEAD: &'static str =
        "You are an AI agent connected to a Multi-Agent Collaboration Protocol (MCP) server.\n\
\n\
Your goal is to complete tasks efficiently and collaboratively using a shared, persistent knowledge base.\n\
\n\
**Core Responsibilities & Tools:**\n\
*   **File Safety:** Before modifying any file, use `check_file_status` to see if another agent is using it. Use `update_file_status` to claim files ('editing', 'reading', 'reviewing') before you start and 'released' when done.\n\
*   **Task Management:** Use `view_tasks` to see your assigned tasks (filter by agent ID or status). Update progress with `update_task_status`. If a task is complex, use `request_assistance` or `create_self_task`.\n\
*   **Project Context (Key-Value):** \n\
    *   Use `view_project_context` with `context_key` for specific values (e.g., API endpoints, configuration) or `search_query` to find relevant keys via keywords.\n\
    *   (Admin) Use `update_project_context` to add/modify precise key-value context.\n\
*   **File Metadata:** \n\
    *   Use `view_file_metadata` (with `filepath`) to understand a file's purpose, components, etc.\n\
    *   (Admin) Use `update_file_metadata` to add/update structured information about specific files.\n\
*   **RAG Querying:** Use `ask_project_rag` with a natural language `query` to ask broader questions about the project. The system will search across documentation, context, and metadata to synthesize an answer. (Index updates automatically in the background).\n\
*   **Event-Driven Loop (preferred over polling):** Use `wait_for_events` to long-poll for new direct messages, broadcasts, and task assignments / changes addressed to you. Default 60s timeout, server caps at 900s. Pass the previous response's `next_cursor` as `since` on each call to advance through the timeline. Replaces the old `view_tasks` + `get_agent_messages` polling pattern — your work loop becomes \"wait, handle event(s), wait\" instead of \"sleep, poll, sleep\". For richer MCP clients, the same data is exposed as standard MCP **resources** at `conexus://inbox/<your_agent_id>` (event timeline) and `conexus://status/<your_agent_id>` (ambient counters: `unread_messages`, `unfinished_tasks`).\n\
*   **Parallelization:** Analyze tasks for opportunities to work in parallel. Break down large tasks into smaller sub-tasks. Clearly define dependencies.\n\
*   **Auditability:** Log all significant actions for tracking and debugging.\n\
\n";

/// How an agent reaches its tools.
pub const TOOL_ACCESS_NOTE: &'static str = "**Tool access:** Your tools are available directly through your \
        MCP connection. The MCP client handles the protocol (transport, framing, and \
        authentication) for you, so call each tool by name (for example `view_tasks`, \
        `update_task_status`, `ask_project_rag`) the same way you use any other tool — you do \
        not need to build HTTP requests or manage tokens yourself. Consult your client's tool \
        listing to discover the full set of tools available to you.";

/// The heading of what a manager is told beyond that.
pub const MANAGER_HEADING: &'static str = "**Coordinating teammates (messaging):**";

/// What a manager is told under that heading.
pub const MANAGER_NOTE: &'static str = " To message another agent, use the `send_agent_message` tool with `recipient_id` set to the teammate's agent_id exactly as listed (for example `pikvm-mcp-server@nixos-developer-system`). Do NOT use your client's native `SendMessage` tool to reach teammates — that only reaches native Task-spawned subagents inside your own session, not the MCP teammates coordinated through this server, so those sends silently fail. If an agent_id is shown with a leading `@` (an @-mention prefix in the UI), drop the `@` — it is not part of the agent_id.\n\
\n\
**Your working folder:** Your working directory (above) is your own repo/checkout — your personal space for coordination. Keep your own notes, progress reports, status logs, and scratch work there as you track the work across your teammates. It is where you record and follow your own progress.";

/// How the prompt calls an agent of a role.
pub open spec fn agent_type(agent_role: Seq<char>) -> Seq<char> {
    if agent_role == "manager"@ {
        "Admin"@
    } else {
        "Worker"@
    }
}

/// The lines on the agent itself: its working directory, its id and its type.
pub open spec fn agent_lines(
    agent_id: Seq<char>,
    working_directory: Seq<char>,
    kind: Seq<char>,
) -> Seq<char> {
    "Your working directory is: "@ + working_directory + "\nAgent ID: "@ + agent_id
        + "\nAgent Type: "@ + kind + "\n"@
}

/// The part of the prompt that every agent gets.
pub open spec fn common_prompt(
    agent_id: Seq<char>,
    working_directory: Seq<char>,
    kind: Seq<char>,
) -> Seq<char> {
    PROMPT_HEAD@ + agent_lines(agent_id, working_directory, kind) + "\n"@ + TOOL_ACCESS_NOTE@
}

/// The prompt for an agent.
pub open spec fn system_prompt(
    agent_id: Seq<char>,
    working_directory: Seq<char>,
    agent_role: Seq<char>,
) -> Seq<char> {
    let common = common_prompt(agent_id, working_directory, agent_type(agent_role));
    if agent_role == "manager"@ {
        common + "\n\n"@ + MANAGER_HEADING@ + MANAGER_NOTE@
    } else {
        common
    }
}

/// A prompt tells the agent its working directory, its id and its type, line
/// by line; an agent in the role `manager` is of type `Admin`, any other of type
/// `Worker`.
pub proof fn prompts_name_the_agent(
    agent_id: Seq<char>,
    working_directory: Seq<char>,
    agent_role: Seq<char>,
)
    ensures
        holds(
            system_prompt(agent_id, working_directory, agent_role),
            "Your working directory is: "@ + working_directory + "\nAgent ID: "@ + agent_id
                + "\nAgent Type: "@ + (if agent_role == "manager"@ {
                "Admin"@
            } else {
                "Worker"@
            }) + "\n"@,
        ),
{
    let prompt = system_prompt(agent_id, working_directory, agent_role);
    let lines = agent_lines(agent_id, working_directory, agent_type(agent_role));
    let at = PROMPT_HEAD@.len() as int;
    assert(prompt.subrange(at, at + lines.len()) =~= lines);
    assert(holds_at(prompt, lines, at));
}

/// Whoever is no manager gets the same prompt, whatever the role is called.
pub proof fn other_roles_get_one_prompt(
    agent_id: Seq<char>,
    working_directory: Seq<char>,
    r1: Seq<char>,
    r2: Seq<char>,
)
    requires
        r1 != "manager"@,
        r2 != "manager"@,
    ensures
        system_prompt(agent_id, working_directory, r1) == system_prompt(
            agent_id,
            working_directory,
            r2,
        ),
{
}

/// The paragraph on messages to teammates is added to the prompt of a manager,
/// and to no other: any other prompt ends with how tools are reached.
pub proof fn only_managers_are_told_of_messaging(
    agent_id: Seq<char>,
    working_directory: Seq<char>,
    agent_role: Seq<char>,
)
    ensures
        agent_role == "manager"@ ==> {
            &&& system_prompt(agent_id, working_directory, agent_role) == common_prompt(
                agent_id,
                working_directory,
                "Admin"@,
            ) + "\n\n"@ + MANAGER_HEADING@ + MANAGER_NOTE@
            &&& holds(
                system_prompt(agent_id, working_directory, agent_role),
                "**Coordinating teammates (messaging):**"@,
            )
        },
        agent_role != "manager"@ ==> {
            &&& system_prompt(agent_id, working_directory, agent_role) == PROMPT_HEAD@
                + agent_lines(agent_id, working_directory, "Worker"@) + "\n"@ + TOOL_ACCESS_NOTE@
            &&& ends_in(
                system_prompt(agent_id, working_directory, agent_role),
                TOOL_ACCESS_NOTE@,
            )
        },
{
    let prompt = system_prompt(agent_id, working_directory, agent_role);
    if agent_role == "manager"@ {
        let common = common_prompt(agent_id, working_directory, "Admin"@);
        let at = (common + "\n\n"@).len() as int;
        assert(prompt.subrange(at, at + MANAGER_HEADING@.len()) =~= MANAGER_HEADING@);
        assert(holds_at(prompt, MANAGER_HEADING@, at));
    } else {
        assert(prompt.subrange(prompt.len() - TOOL_ACCESS_NOTE@.len(), prompt.len() as int)
            =~= TOOL_ACCESS_NOTE@);
    }
}

/// The prompt for an agent: its tools, its working directory, its id and role,
/// and for a manager how to lead its team.
pub fn generate_system_prompt(
    agent_id: &str,
    working_directory: &str,
    agent_role: &str,
) -> (r: String)
    ensures
        r@ == system_prompt(agent_id@, working_directory@, agent_role@),
{
    let manager: bool = same(agent_role, "manager");
    let kind: &str = if manager {
        "Admin"
    } else {
        "Worker"
    };
    let lines: String = cat7(
        "Your working directory is: ",
        working_directory,
        "\nAgent ID: ",
        agent_id,
        "\nAgent Type: ",
        kind,
        "\n",
    );
    let common: String = cat4(PROMPT_HEAD, lines.as_str(), "\n", TOOL_ACCESS_NOTE);
    if manager {
        cat4(common.as_str(), "\n\n", MANAGER_HEADING, MANAGER_NOTE)
    } else {
        common
    }
}

/// The directory that an agent's row names.
pub open spec fn named_dir(row: Option<AgentRowView>) -> Option<Seq<char>> {
    match row {
        Some(r) => if r.working_directory.len() > 0 {
            Some(r.working_directory)
        } else {
            None
        },
        None => None,
    }
}

/// The outcome of `get_system_prompt`.
pub open spec fn prompt_view(
    agent_id: Seq<char>,
    working_directory: Seq<char>,
    row: Option<AgentRowView>,
) -> ActionView {
    ActionView::Finish(
        ResultView::Success {
            data: None,
            message: Some(
                "System Prompt for Agent '"@ + agent_id + "':\n\n"@ + system_prompt(
                    agent_id,
                    working_directory,
                    match row {
                        Some(r) => r.agent_role,
                        None => "worker"@,
                    },
                ),
            ),
        },
    )
}

/// The dialogue of `get_system_prompt`: look the agent up, and where it names
/// no directory ask for the server's.
pub open spec fn get_system_prompt_next(c: CallView, h: Seq<EventView>) -> ActionView {
    let agent_id = text_or(caller_agent(c.principal), "unknown"@);
    if h.len() == 0 {
        ActionView::GetAgent { agent_id }
    } else {
        match h[0] {
            EventView::Agent(row) => match named_dir(row) {
                Some(dir) => prompt_view(agent_id, dir, row),
                None => if h.len() == 1 {
                    ActionView::CurrentDir
                } else {
                    prompt_view(
                        agent_id,
                        match h[1] {
                            EventView::Text(Some(dir)) => dir,
                            _ => ""@,
                        },
                        row,
                    )
                },
            },
            _ => failed_view("Database error reading agent row"@),
        }
    }
}

/// `get_system_prompt`: the prompt for the calling agent.
pub struct GetSystemPromptTool;

impl GetSystemPromptTool {
    fn prompt(agent_id: &str, dir: &str, row: &Option<AgentRow>) -> (r: Action)
        ensures
            r@ == prompt_view(
                agent_id@,
                dir@,
                match *row {
                    Some(x) => Some(x@),
                    None => None,
                },
            ),
    {
        let role: &str = match row {
            Some(x) => x.agent_role.as_str(),
            None => "worker",
        };
        let prompt: String = generate_system_prompt(agent_id, dir, role);
        Action::Finish(
            ToolResult::Success {
                data: None,
                message: Some(
                    cat4("System Prompt for Agent '", agent_id, "':\n\n", prompt.as_str()),
                ),
            },
        )
    }

    /// What to do after `history`.
    pub fn next(call: &Call, history: &Vec<Event>) -> (r: Action)
        ensures
            r@ == get_system_prompt_next(call@, events(history@)),
    {
        let agent_id: &str = str_or(agent_of(call.caller()), "unknown");
        if history.len() == 0 {
            return Action::GetAgent { agent_id: own(agent_id) };
        }
        match &history[0] {
            Event::Agent(row) => {
                match row {
                    Some(x) => {
                        if !x.working_directory.as_str().is_empty() {
                            return GetSystemPromptTool::prompt(
                                agent_id,
                                x.working_directory.as_str(),
                                row,
                            );
                        }
                    },
                    None => {},
                }
                if history.len() == 1 {
                    return Action::CurrentDir;
                }
                match &history[1] {
                    Event::Text(Some(dir)) => GetSystemPromptTool::prompt(
                        agent_id,
                        dir.as_str(),
                        row,
                    ),
                    _ => GetSystemPromptTool::prompt(agent_id, "", row),
                }
            },
            _ => failed("Database error reading agent row"),
        }
    }
}

} // verus!
