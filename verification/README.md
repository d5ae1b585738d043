# chatguru_clickup

The verified core of a middleware between ChatGuru (WhatsApp attendance) and ClickUp:
it turns chat messages into ClickUp tasks, classifies them, finds the client's folder and
the month's list, answers and annotates back, and enriches tasks created elsewhere with
their category, subcategory and stars.

## Layout

- `src/` — the library, written in Verus. Every public function of the library carries a
  contract that Verus proves. The webhook, enrichment, scheduler, circuit-breaker and
  hybrid-classifier flows are there as decision functions that a server calls between its
  awaits. Calls into other crates (serde_json, serde_yaml, regex, base64, urlencoding,
  deunicode, sha2, rust-stemmers, chrono) sit behind small functions whose contracts are
  documented where they are declared.
  - `text`, `json`, `keyed`, `encoding`, `clock`, `error` — strings, JSON values, keyed
    vectors, Base64/UTF-8, the clock, and the service's error kinds.
  - `models` — the webhook payloads and the ClickUp task requests built from them.
  - `services` — classification prompts and their configuration, categorisation, the
    caches, the circuit breaker and batches, the scheduler, conversation tracking, folder
    and list resolution, secrets, Vertex AI messages, and the like.
  - `handlers`, `auth`, `middleware` — what the HTTP endpoints decide and answer.
- `tests/` — tests run against the compiled library.
- `app/` — the server of the enrichment job (axum, reqwest, file and environment access)
  and the floating-point scoring, which stay outside the verified library. The other
  endpoints of the service (webhook, worker, scheduler, OAuth) are not served by this
  binary; their decisions are in the library.
