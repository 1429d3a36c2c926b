# spelldawn_rules

The rules of the Spelldawn card game, written in Verus and proved against
their contracts.

`src/` is the verified library:

- `primitives`, `error`, `game_actions`, `game_updates`, `card_definition`,
  `game_state`: the data of a game and its invariant (`GameState::wf`).
- `queries`, `selection`, `mutations`: questions about a game, card selection
  (top of deck, random choice), damage, draws and the other card effects.
- `effects`, `dispatch`, `draws`: what each effect of a card ability does to a
  game, the dispatch of an event to every ability that listens for it, and
  draws as the rules run them (announced to abilities that may limit them).
- `flags`: questions whose answer abilities can change, such as whether an
  ability can be activated or a weapon's attack.
- `play_card`: the 'play card' state machine; `raids` and `access`: raids and
  their access phase.
- `card_helpers`, `helpers`, `weapons`, `cards_beryl`: building card
  definitions, and the rules of the cards defined here.
- `card_icons`, `buttons`: what the client shows of a card and which buttons
  it offers.
- `minimax`: the Minimax search over an explicit game tree; its core takes
  the deadline and the clock as plain numbers.
- `adventure`: the adventure mode (exploring, drafting, the collection).
- `debug_server`: the decisions of the debug tools.
- `tutorial`: the scripted tutorial.

`tests/` runs the library on concrete games. `app/` holds what the verifier
does not see: the serialized forms of the game actions, the shared tutorial
script, and the debug tools' reads and writes of stored records.
