# mykobo_rs

Client-side building blocks for the Mykobo services, with their logic
verified by Verus.

- `src/` is the verified library: message-bus payloads and their validation,
  event names, the notification contract (predicate parser, predicate
  evaluation, the event registry and its canonical JSON form), idempotency
  keys, the retry policy of the Kafka consumer, token acquisition, request
  URLs and headers, and the business tables. Every function carries a
  `requires`/`ensures` contract; the laws that span functions are public
  proof functions.
- `tests/` runs the library on concrete values.
- `app/` holds what Verus does not see: HTTP clients, Kafka and SQS plumbing,
  YAML and JSON decoding, and the serde copies of the library's types.
