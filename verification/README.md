# ragent

A coding agent for the terminal. The model talks to a chat API (DeepSeek),
and may call tools: `bash`, `read_file`, `write_file`, `edit_file` and `glob`,
all confined to the workspace the agent was started in.

## Layout

- `src/` — the verified library.
  - `tool_call/path.rs`, `tool_call/helpers.rs`: lexical path handling and
    `safe_path`, which keeps every file tool inside the workspace; the
    decisions of reading, writing, editing and listing files.
  - `tool_call/lines.rs`: a file's lines, with a line limit.
  - `tool_call/bash.rs`: screening shell commands and reporting their output.
  - `tool_call/tool.rs`: tool calls, results, definitions and the registry.
  - `llm/client.rs`: the API client and its builder.
  - `llm/engine/`: the conversation, and the agent's turn loop as a state
    machine (`Engine`), driven by events.
  - `text.rs`: character-level string helpers.
- `app/` — the program: reads the terminal, sends HTTP requests, touches the
  filesystem and the shell, and feeds what happened back to the library.
- `tests/` — tests of the library.
