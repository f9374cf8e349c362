# furuyoni_lib

A verified library for a two-player card duel, written in Verus.

- `src/rules` — seats, cards, petals, board views and how a board update
  changes a board (`StateView::apply_update`, specified by
  `BoardModel::after_update`), with proofs that transfers keep petals and
  cards on the board.
- `src/net` — line framing of messages (`get_line`, `frame_text`,
  `encode_frame`), message types and error types.
- `src/client` — the client's decisions: relative positions, board labels,
  main-phase picking, card animations, routing of server frames, and the game
  session state machine.
- `src/cards`, `src/events`, `src/player_actions`, `src/messages` — a card
  catalogue keyed by card back and id, and messages in which a basic action
  travels together with its cost.
- `app/` — a console client: sockets, channels, JSON (serde) and user input.
