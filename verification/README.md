# crowdfunding_events

Event emission for a crowdfunding and ticketing contract, verified with Verus.

- `src/event_kind.rs`: the events the contract publishes and their names,
  with proofs that every name is a valid Soroban symbol and that no two
  events share a name.
- `src/event_log.rs`: the global event tracker (a counter and the list of
  event records), its recording step and its laws: records are numbered from
  1 in emission order, the list is append-only, and the counter equals the
  number of records.
- `src/events.rs`: one emitter per event. Each builds the event's topics and
  data from plain values and records the event in the log.
- `src/mock.rs`: a stand-in contract that emits `contract_upgraded`.
- `app/lib.rs`: the contract-side face over `soroban-sdk`: it reads and writes
  the log in persistent storage, takes the ledger time, converts host values
  to plain values and publishes the events the library builds.
