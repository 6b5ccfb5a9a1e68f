# alinkwise

Extensions of a LoRaWAN network server, verified with Verus.

- `src/alinkwise`: a service for tenants. It lists the devices of a tenant and the events of a
  device, and clears frame logs, metrics and the event history. `api` holds the calls as state
  machines, `device_query` and `uplink_history` the queries that they need. `device_rows` and
  `history_rows` say what those queries mean for the rows of a database, and prove what follows.
- `src/gateway/backend`: the backend that talks to gateways through an MQTT broker. `mqtt` decides
  on topics, encodings and the connection, `registry` remembers how each gateway speaks, and
  `v3_json` gives messages the names that gateways of the third version know.
- `src/json.rs`, `src/rows.rs`, `src/tags.rs`, `src/text.rs`, `src/time.rs`, `src/eui64.rs`,
  `src/uuids.rs`: what both build on.
- `app`: what reaches the databases, the store and the broker.
- `tests`: the library on concrete values.

The library trusts the parts of `serde_json`, `handlebars`, `uuid`, `chrono`, `rand` and the standard
library that it calls, as the doc comments at those calls say.
