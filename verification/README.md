# pulse

Uptime and status monitoring: HTTP, keyword, JSON, TCP, ping and DNS
checks, heartbeats, notifications (webhook, Discord, Slack, Telegram),
status pages and maintenance windows, served over a REST and WebSocket API.

- `src/` is the library, verified with Verus: how each check is planned and
  judged (`checks`), retries and the heartbeat they produce, which monitors
  have a running check task (`scheduler`), what each notification channel is
  sent (`notify`), status pages and stored id lists (`pages`, `id_lists`),
  the records themselves (`models`) and small text routines (`text`).
- `app/` is the service around it: HTTP handlers, SQLite storage, the check
  tasks' I/O and notification delivery.
- `tests/` exercises the library.
