# ultra-core

The core of the Ultra Tiger agent service: a security-first, cost-aware
platform that runs tasks around the clock under budget and permission gates.

- `src/` is the library, verified with Verus. Each public function carries a
  contract; the `law_*` proof functions state properties that span calls.
  - `autonomy`: task queue with retries and a dead-letter queue.
  - `memory`: memory records and an in-memory store with filtered,
    newest-first, bounded queries.
  - `observability`: heartbeats and a bounded log of recent actions.
  - `permissions`: which actions need a human's approval.
  - `guardian`: the budget guardian's preflight and revocation decisions.
  - `bridges`: Telegram and WhatsApp webhook intake (signatures, per-minute
    rate limits), delivery planning with retries and backoff, health.
  - `skill`: skill manifests, capability checks, signed packages, and the
    verdict on each host call of a running skill.
  - `persistence`: records of the persistent store and the scheduler-trigger
    column format.
  - `digest`, `text`: SHA-256 signatures and character-level helpers.
- `app/` is the service around it: the HTTP API (axum), the budget sums in
  floating point, HTTP delivery (reqwest), SQLite storage (rusqlite) and the
  Wasmtime skill runner.
- `tests/` exercises the library.

Not carried over: the SQLite functions `enqueue_task`, `claim_due_task`,
`fail_task`, `run_scheduler_tick`, `retrieve_hybrid`,
`ingest_memory_with_embeddings` and `store_embedding`, with
`MemoryRetrievalResult`, and the `/guardian/status` and `/guardian/reset`
routes. They rely on helpers and fields that this service does not have
(`compute_retry_delay_seconds`, `next_schedule_run_unix`,
`chunk_text`, `embed_text_deterministic`, `cosine_similarity`,
`keyword_overlap_score`, `TaskItem::available_at_unix`,
`Guardian::status`, `Guardian::manual_reset`). The decisions they would
share with the rest are in the library: the dead-letter rule
(`failure_route`), the trigger's column format (`trigger_columns`,
`trigger_from_columns`) and the id of a fired task (`scheduled_task_id`).
