# conexus_tools

The tools that agents and operators call on a coordination server: messages,
events, files, the project context, and the agents themselves.

Every tool is a dialogue. Given the call and what has come of its earlier
actions, `next` says which action comes next, or how the call ends. The
contract of `next` is the tool's whole behaviour, run by run. `wait_for_events`
is a state machine of its own, in `event_loop`.

- `src/` is the library.
  - `protocol`, `principal`, `catalog`, `schemas`: actions and events, callers,
    who may call which tool, and how each presents itself.
  - `admin_tools`, `agent_lifecycle`, `agent_roster_tools`, `agent_tools`: the
    agents.
  - `agent_records`: what whole runs leave in the rows that name agents.
  - `agent_communication_tools`, `event_loop`, `message_suggestions`: messages
    and events.
  - `file_management_tools`, `file_metadata_tools`: files.
  - `project_context_tools`, `context_health`, `context_writing`,
    `context_deletion`, `context_backup`: the project context.
  - `health_score`: how the score of a context relates to its exact value.
  - `completion_client`, `embedding_client`, `context_window`, `env`: model
    endpoints and their settings.
  - `text`, `json`, `rounding`: texts, JSON trees, and arithmetic to 53 binary
    digits.
- `app/` performs the actions: it runs the dialogues against a store, keeps the
  time of a wait, and sends requests to model endpoints.
- `tests/` holds the tests.

Public proof functions state what holds across calls, such as that a purge whose
writes and listing of tasks succeed leaves nothing that names the purged agent,
where the caller is another; that the audit trail shows no more of a token than
its last four characters and never all of it; that a claim of another agent
stands; or that every end of a wait takes it out of the register, unless a newer
wait of the same agent has replaced it.
