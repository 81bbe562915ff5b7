# blazingrail

The verified core of a small event ingestion router: events are validated,
queued, gathered into batches and written to a sink (a JSON-lines file, or
Kafka behind a circuit breaker).

- `src/` is the library, with its contracts and proofs:
  - `models`: the event and its validation rules;
  - `error`: how a refused request is answered;
  - `api`: admission of an event into the queue;
  - `batcher`: when batches are flushed, with the proofs that over any run
    of received events and timer flushes, whether the sink takes or refuses
    its batches, no event is lost, duplicated or reordered, and every batch
    holds between one event and the batch size;
  - `circuit_breaker`: when the primary sink is bypassed, with the proofs
    that failures open the circuit, that it is retried after its timeout and
    that a success closes it;
  - `sinks::kafka`, `sinks::file`: topic routing, producer settings, batch
    outcome, JSON-lines framing;
  - `config`: settings and their defaults.
- `app/` is the service around it: HTTP with axum, the batcher's loop on
  tokio, file and Kafka writes, configuration from the environment.
- `tests/` runs the library on concrete values.
