# sase_payments

Payment holds for bookings: a hold is authorized, then captured or released, and what
was captured can be refunded in parts. Requests carry an idempotency key: one that
repeats a request on record is answered from the record. Of two requests under one key
that arrive at the same time, it is the database's uniqueness of keys that lets only one
be put on record.

- `src/` is the library. Every decision of the service is taken there, and Verus proves
  its contracts.
  - `bookings_contract` is the lifecycle of a hold, and the idempotency rule; `laws` is
    what holds of the lifecycle as a whole.
  - `decimal`, `clock`, `identifier` and `text` are the values that it works on.
  - `headers`, `identity`, `operations`, `storage`, `outbox` and `replies` are the parts
    of serving a request, and `flow` puts them together as a state machine; `flow_laws`
    and `runs` are what holds of a step and of a whole request.
- `app/` is the HTTP service. It performs the actions that a flow names, on the identity
  service and on PostgreSQL, and hands back what came of them.
- `tests/` runs the library.
