# codexium_core

The verified core of Codexium's local customization layer: the per-provider
model configuration (`codexium/models.json`, `codexium/auth.json`), the
`codexium/*` app-server requests, the provider registry and its versioning,
per-turn timing profiles, implicit skill invocations and the shadow
skill-selection bookkeeping.

- `src/` is the library, written in Verus: every function carries a
  `requires`/`ensures` contract proved by the verifier, and the properties
  that span several functions are public proof functions (for example
  `models_write_then_read`, `connect_then_disconnect`,
  `completed_profile_covers_turn`, `version_order_transitive`).
  Maps keyed by provider id or model slug are `StrMap`s; clock readings are
  plain integers (monotonic nanoseconds, Unix milliseconds or seconds).
- `app/` is the ordinary Rust around it: JSON (de)serialization of the
  config files and request payloads, file system and environment access,
  clocks, and the loops that send requests and hand their outcomes to the
  library's decision functions.
- `tests/` exercises the library on concrete values.
