# disrust

The logic of a terminal Discord client, verified with Verus.

- `src/` is the library: the JSON values the client reads, parsed from text
  with serde_json (`json`), the
  records it shows (`data`), the REST requests and what it makes of their
  replies (`wrapper`), the gateway payloads and the decision taken for each
  gateway event (`gateway`), the navigation state (`channels`), the chat box
  (`chat_box`) and the key bindings and list texts of the interface (`gui`).
- `app/` is the program around it: HTTP requests with reqwest, the gateway
  socket with tungstenite, and the terminal with crossterm and tui.
- `tests/` runs the library on concrete values.
