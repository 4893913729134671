# bitcraps

The mobile and monitoring layers of BitCraps, a peer-to-peer dice game,
as a Verus-verified library.

- `src/mobile`: permissions and their onboarding flow, secure storage
  (in memory, Android keystore with ChaCha20-Poly1305 and HKDF, iOS),
  the security manager and wallets, platform configuration and
  adaptations, power modes and the power-state machine, and the game
  node and handles of the mobile API.
- `src/monitoring`: alert rules, deduplicating alert state and history,
  escalation, notification routing and rate limits, metric counters,
  health and readiness reports, dashboards, overflow-aware channels,
  compression, and the parsers of the Linux `/proc` files.
- `src/keyed.rs`, `src/text.rs`, `src/clock.rs`: string-keyed lists
  read as maps, text helpers, the clock.
- `tests/`: tests of the library.
- `app/`: what surrounds it — serialization, file and network I/O, the
  asynchronous service loops, logging, and the floating-point figures
  (conditions, scores, battery and thermal readings).
