# ye_olde_discord

A small Discord client that logs in over the gateway, keeps its session, answers the
gateway's heartbeats and joins calls that ring it, with a terminal console of its log.

The library (`src/`) holds the logic, verified with Verus:

- `voice::client` — the session state and the answer to each frame read from the
  gateway (`ClientState::step`), the identify and heartbeat payloads.
- `voice::gateway::connection` — the decisions of the loop that carries frames
  between the gateway and the client.
- `voice::gateway::message` — the incoming and outgoing message types, how an incoming
  message's kind is read from its opcode and event name, and the opcode of each
  outgoing kind; `model` holds ids (with the decimal text form of snowflakes), users
  and their flags, activities and emoji.
- `voice::gateway::intents` — gateway intents.
- `ui::logger` — the log store: level and target filtering, the most recent records,
  and the console text shown of them.
- `ui::wrap` — how the log widget cuts text into lines and places them.
- `circular` — the bounded buffer behind the log store.

The program (`app/`) does the input and output: the websocket, JSON through serde, the
terminal UI, the process-wide logger, and the loops that feed events to the library and
carry out what it asks for.
