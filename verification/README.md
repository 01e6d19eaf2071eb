# philo

A provider-configuration library for LLM clients, written in Verus. It decides, before
any request is sent, whether a provider definition and a deployment of it are safe to run:
exact identifiers, endpoint resolution, credentials bound to their exact HTTPS origin,
protected header ownership, capability and protocol-contract agreement, model catalogs,
OpenRouter routing policy, rate-limit observation and idempotency keys.

## Layout

- `src/` — the verified library. Every function carries a `requires`/`ensures` contract
  over mathematical views (`Seq`, `Map`, spec functions), and Verus proves each body
  against it. The few calls into outside crates (`url`, `http`, `uuid`) go through small
  trusted wrappers whose doc comments say what they claim.
  - `domain`, `error`, `text`, `keyed` — identifiers, errors and text helpers.
  - `provider::definition`, `provider::runtime` — building a definition, checking a
    deployment and a profile against it, and layering one attempt's headers.
  - `provider::endpoint`, `provider::headers`, `provider::auth` — endpoints and origins,
    the header ownership pipeline, authentication shapes and the credential cache steps.
  - `provider::catalog`, `provider::capability`, `provider::protocol_contract`,
    `provider::compat` — model catalogs, capabilities, protocol contracts and routing.
  - `provider::profiles` — the official `OpenAI` and Anthropic definitions and the
    OpenRouter attribution headers.
  - `provider::registry`, `provider::factory`, `provider::config`, `provider::detection`,
    `provider::diagnostics`, `provider::rate_limit`, `provider::idempotency`.
- `app/` — ordinary Rust around the library: asynchronous authentication and dynamic
  header callbacks under a request lifecycle, the runtime that joins a definition to a
  deployment, the official presets, a thread-safe registry, environment secrets and serde
  forms.
- `tests/` — tests of the library on concrete values.
