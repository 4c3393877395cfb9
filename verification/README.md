# handy

The request plumbing and decision logic of Handy's cloud transcription
engines (Codex and Groq), written in Verus and verified.

- `src/remote.rs` — language normalization, the `curl -K -` config, splitting
  curl's output into body and status, status classification, the
  cancellation generation, temp-file naming.
- `src/session.rs` — one transcription request as a state machine: when to
  start curl, poll it, kill it, retry once after a delay, give up, and which
  error a failure becomes. Its laws bound the number of attempts and show
  that a cancelled request never starts curl again.
- `src/codex.rs`, `src/groq.rs` — the two engines: credentials from
  `auth.json` and the request each engine sends.
- `src/wav.rs` — 16 kHz mono 16-bit WAV encoding through hound.
- `src/recovery.rs` — which recordings without a history row are recovered.
- `src/utils.rs` — Wayland / KDE detection from environment values, and the
  notice shown after a cancelled recording was recovered.
- `src/text.rs` — character-level helpers (trimming, decimal digits).
- `app/` — the unverified edge: running curl, files, the environment,
  clocks, float-to-PCM conversion and JSON decoding of the response body.
