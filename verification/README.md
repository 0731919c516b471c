# nova_ui

The logic of Nova's window, with its behaviour stated in contracts and proved
with Verus: what the app keeps, what it does when something happens, and what it
shows. Nothing in `src/` touches a socket, a file or a screen; functions return
the requests and effects to carry out.

| module | what it holds |
| --- | --- |
| `state` | the app's state, its reducers and queries, and booting an engine |
| `proto` | the records that engine and window share, with their orders and labels |
| `terminal` | the terminal panel: tabs, sessions, the command feed, the grid |
| `shell` | the projects sidebar and its dialogs |
| `collaboration` | the room of a parent agent and its children |
| `settings` | the settings pages |
| `theme` | palettes, symbolic until they are painted |
| `model_cache` | the last known model catalogs |
| `wire` | requests as values |
| `saved` | the selection as the data directory keeps it |
| `text`, `keyed`, `order`, `seqs`, `ids` | what the rest is built on |

Times are microseconds, as `i64`. Fractions and contrasts are integers (`WHOLE`
parts make one). A screen is described by a frame (`feed_frame`, `tab_bar`,
`palette_frame`, ...), which a toolkit draws.

Outside calls stand behind a few trusted functions: base64 in `terminal::codec`,
fresh ids and the time of day in `ids`, JSON in `saved`, lower case in
`settings::appearance`.

`app/` performs what the library asks for: transports, files, timers, floating
point.
