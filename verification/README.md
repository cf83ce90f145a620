# rustbolt_world

The world server of a game realm, written in Verus: the library states in
`requires`/`ensures` contracts what each function does, and Verus proves it.

## Layout

- `src/` — the verified library.
  - `wire`, `codec` — byte images of integers, strings and records; the readers
    of client messages (`ClientPayload`) and the writers of server messages
    (`WireEncode`), with their round-trip laws.
  - `entities` — object guids (plain and packed) and positions.
  - `protocol` — message headers (plain and encrypted), and every message the
    server reads or writes (`protocol::packets::*`).
  - `constants` — the enumerations of the game rules with their wire numbers.
  - `login` — the answers to a character entering the world.
  - `session` — session state: time synchronisation, the objects the client
    knows of, the sessions of the world by key, the login check, the framing
    (and compression) of outgoing messages.
  - `quests`, `gossip`, `npcs`, `items`, `responses` — the rules that turn
    templates and player state into what the client is shown, and the decisions
    on gossip options, purchases from vendors and trainers, and quest chains.
  - `repositories`, `game_objects` — records read from the databases and the
    rules applied to them.
  - `spell_targets` — the targets of a spell cast, and what using an item does.
- `tests/` — tests on concrete values.
- `app/` — the server process: sockets, the authentication handshake, the
  database queries, and the dispatch of the messages it answers (pings, time,
  account data, the character list, name, item and quest queries, entering the
  world, logging out). The decisions on gossip, vendors, trainers and item use
  are in the library; the server does not dispatch to them yet, since it keeps no
  map of creatures or player inventories.
