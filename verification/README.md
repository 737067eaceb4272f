# hass_rs

A Home Assistant websocket client.

- `src/` — the verified library: the message types (`types`), the client's
  state machine with its entity cache and command numbering (`hass`), the
  transport's decisions and endpoint (`websocket`), the light automations'
  decisions (`automation`), and proved properties of the state machine (`laws`).
- `app/` — the program around it: configuration file, JSON encoding, the
  websocket connection, channels, timers, and the automation runtime.
- `tests/` — tests of the library.
