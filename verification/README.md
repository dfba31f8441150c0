# goose_acp

Elicitation over the Agent Client Protocol, written and verified in Verus.

- `src/cursor.rs`: questions that Cursor asks, turned into one elicitation form and back into
  answers.
- `src/elicitation.rs`: form elicitations of a server, from the question to the submitted outcome.
- `src/messages.rs`: the JSON-RPC messages that carry an elicitation and its response.
- `src/model.rs`: the completion calls of context compaction, and token counts.
- `src/protocol.rs`, `src/json.rs`: what is taken from `agent_client_protocol` and `serde_json`,
  with the contracts that are believed of these crates.
- `app/`: the asynchronous code around the library.
