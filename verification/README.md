# guibiao-backend

Backend of a gnomon (圭表) shadow-measurement station: sensors post shadow
measurements, the service simulates atmospheric refraction and shadow
geometry, stores results in ClickHouse, raises shadow-deviation alerts and
pushes everything to WebSocket clients.

Layout:

- `src/` — the verified library. It holds every decision of the service that
  does not rest on floating-point arithmetic:
  - `response` — the answer envelope and how store reads are answered;
  - `refusal` — why a request is refused and with which message;
  - `flows` — the handling of a posted measurement and of a Monte Carlo
    request as state machines (what to store, broadcast and answer, in which
    order), and the default-station lookup;
  - `alert_gate` — the per-station 60-second alert debounce;
  - `time_range` — the time range a measurement query covers;
  - `ids` — the identifier a posted measurement is stored under;
  - `instant` — UTC instants and the clock and RFC 3339 parsing;
  - `live_feed` — when a WebSocket connection keeps listening and pushing.
- `app/` — the HTTP server (axum), ClickHouse storage, the WebSocket feed and
  the floating-point optics and Monte Carlo models, driven by the library.
- `tests/` — tests of the library.
