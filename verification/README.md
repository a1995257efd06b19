# robot_buddy_game

The rules of the Robot Buddy kids' game, written as a Verus library: every
function in `src/` carries a contract that Verus proves.

- `src/pathfinding.rs` — breadth-first tap-to-move pathfinding; the returned
  walk steps only onto grid tiles the walkability test answered true for, is
  shortest, and is the first of the shortest in direction order.
- `src/follower.rs` — the path queue a buddy retraces behind the player.
- `src/tilemap.rs`, `src/tilemap/colors.rs` — every map's tiles, which tiles
  block, the portals between maps, and the tile palettes.
- `src/number_track.rs` — Shelly's numbered stepping stones.
- `src/npc.rs` — NPC identities, map rosters, small talk, wandering, and where
  an NPC lands after a portal.
- `src/game.rs`, `src/game/*` — game states, scripted lines, the dev-zone
  code word, answer tiles, portal trips, Shelly's calls, and the step
  functions of walk-path following, the interact key, the interaction menu,
  a shop visit and the dev-zone knobs (the game carries out what they
  decide).
- `src/save.rs` — splitting the saves value into slot texts and reading
  each slot as empty, a record or unreadable (the record parse itself is the
  caller's), encoding the value, backup keys for
  unreadable saves, writing one slot without touching the others, migrating
  old saves, the string store both backends implement, and the in-memory
  store.
- `src/audio/tts.rs` — what a line sounds like once cleaned for speech.
- `src/rng.rs` — the two random draws the game makes, through `rand`.

`app/` holds the platform side: the running game's settings, the speech
bridge, file-backed storage, session export, and floating-point helpers.
`tests/` exercises the library from outside.
