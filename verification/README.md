# hermes_mqtt

The Hermes protocol, by which the components of a voice platform talk, over
MQTT.

- `src/` is the library, verified with Verus. `topics` and `commands` give each
  topic its name on the broker and read it back; `filter` says which names a
  subscription is for; `handler`, `components`, `facades` and `audio` say what
  each component publishes and subscribes to; `subscriptions` says whom a
  message is for; `report` shows payloads in reports; `protocol` ties them to
  one connection. `laws` holds what is true of publications and subscriptions
  together: what reaches whom, and that what is published comes back whole.
- `app/` is the connection itself: an MQTT client that does what the facades
  ask.
- `tests/` runs the library.

Topic names:

| topic | name |
|---|---|
| a command of an area | `hermes/<area>/<command>` |
| the same, about a site | `hermes/<area>/<site>/<command>` |
| bytes to play | `hermes/audioServer/<site>/playBytes/<id>` |
| an intent | `hermes/intent/<name>` |
| feedback sounds | `hermes/feedback/sound/<command>` |
