# repo_mcp

A tool server for AI agents that work on git repositories: it answers
JSON-RPC requests over HTTP and offers file tools (read, write, list,
create, delete, move, name search, content search, single-match edit), git
tools (clone, status, add, commit, push, pull, branches, checkout, diff, log)
and, when `REPO_MCP_EXEC_ENABLED=true`, a shell tool, all confined to one
storage directory.

- `src/` is the library, verified with Verus: reading tool calls out of
  requests (`args`, `tools`, `rpc`), the tool list, the containment test
  for paths (`paths`), git command lines and reports (`git_tools`), file
  tool reports, searches and single-match edits (`fs_tools`), the shell
  tool's limits and reports (`exec_tools`), start-up settings (`config`),
  and the text operations they share (`text`).
- `app/` is the server around it: HTTP and JSON handling, the filesystem,
  and running git and the shell.
- `tests/` runs the library on concrete inputs.
