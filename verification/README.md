# webhook_relay

A webhook relay: clients create webhooks with destinations, trigger events on
them, and a worker delivers each event to every destination with up to three
attempts and exponential backoff (1 s, then 2 s) after rejected attempts.

- `src/` is the verified library (Verus): the records (`models`), identifiers
  and their text (`ids`), the service rules (`services::webhook`: what a
  creation stores, what an update writes, what a trigger records and queues),
  the dispatcher rules (`workers::dispatcher`), and the delivery state machine
  and event-state rule (`workers::job`), with their laws as proof functions.
- `app/` is the program around it: PostgreSQL (sqlx), the Redis queue, HTTP
  delivery (reqwest), the HTTP API (axum), and the loops that run the
  library's state machines.
- `tests/` exercises the library on concrete values.

Endpoints: `POST /webhooks`, `PATCH /webhooks/:id`, `DELETE /webhooks/:id`,
`POST /webhooks/:id` (trigger an event).
