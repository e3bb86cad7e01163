# constellations

The decision-making core of Constellations, a Matrix client for the COSMIC
desktop, written in Verus: the functions in `src/` are proved against their
contracts, except the few small ones that call `pulldown-cmark`, `qrcode`,
`url`, `emojis` or `std` string routines, whose contracts are trusted.

## Layout

- `src/text.rs`: case-insensitive search, fuzzy matching, decimal text.
- `src/preview.rs`: the message preview (plain text with links, Markdown).
- `src/rich_text.rs`: laying a preview out as styled runs with link ranges.
- `src/space.rs`: the space hierarchy and what is in a space.
- `src/diff.rs`: applying list changes reported by the sync service.
- `src/rooms.rs`: the room list, its filtering, ordering and caches.
- `src/summary.rs`: room summaries (last message, unread label, reply
  line, thread reply count, the actions a message offers).
- `src/matrix.rs`: sync status and errors, homeserver address rule.
- `src/engine.rs`: what the engine does with space events, which messages
  notify, and how a space's children are put together.
- `src/urls.rs`: hiding the secrets of a login redirect URL.
- `src/session.rs`: login, registration and engine start-up decisions.
- `src/emoji.rs`: what the emoji picker offers.
- `src/composer.rs`: what sending from the message composer hands over,
  and the snippet its reply and edit bars show.
- `src/ui.rs`: menus, settings panels, the login QR code grid.
- `src/settings/`: the preference, room, space and account panels as state
  machines from message to new state and requests.
- `app/`: the program around it (arguments, the preferences file).
- `tests/`: tests of the library on concrete values.
