# mcp_docker_sentinel

An MCP server that lets an AI client manage the local Docker daemon through
JSON-RPC tools (list, inspect, start, stop, restart and remove containers, read
logs and statistics, run commands, pull and remove images, list networks and
volumes).

- `src/` is the Verus-verified library: the tool catalogue (`mcp::tools`), the
  planning of a tool call into one Docker operation and the text of its reply
  (`mcp::handlers`), the reading and routing of each JSON-RPC request line (`mcp::rpc`), the laws that tie the
  catalogue to call handling (`mcp::laws`), and the folding of the daemon's
  replies into reported records and text (`docker::client`, `docker::stats`).
- `app/` is the program around it: the stdin/stdout loop, the rendering of
  replies as JSON, and the calls to the Docker daemon through `bollard`.
- `tests/` exercises the library on concrete values.
