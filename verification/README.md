# architect

A verified library for static architecture analysis of source trees, and the MCP server
around it.

- `src/` is the library, verified with Verus. Source files are parsed with tree-sitter;
  the syntax trees and query captures are turned into plain values (`syntax`), on which
  the analyses work: function definitions and calls (`analyzer::call_graph`, `index`),
  impact analysis (`impact`), Mermaid call maps (`diagram`), complexity metrics
  (`analyzer::metrics`), imports and external coupling, security hotspots and API routes,
  the language registry (`languages`), the workspace state (`state`), the resources,
  prompts and completion served to clients.
- `app/` is the server: it walks the workspace on disk, hands the files to the library,
  and speaks MCP over stdio with `rmcp`.
- `tests/` exercises the library on concrete inputs.
