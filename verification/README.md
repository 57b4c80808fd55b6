# shadow_core

Prompt-building primitives for Shadow Based Twinspace (SBT): locale-aware
prompt assets, a `{placeholder}` template renderer, and builders that put
system prompts and per-turn inputs together from typed data.

The library in `src/` is written in Verus. Each function carries a contract
that states its result over specification functions on character sequences,
exactly wherever the result does not depend on the clock, and Verus proves
each body against it. What comes from `chrono`, `chrono-tz`, `serde_json` and
`str::to_lowercase` rests on the trusted contracts of small wrappers, each
documented where it is declared.

## Layout

- `src/template.rs` — `PromptTemplate::render` and its specification
  (`render_chars`), with laws: rendering without bindings is the identity,
  text without `{` is unchanged, and a placeholder is replaced by its last
  binding or left as it is.
- `src/locale.rs`, `src/assets.rs` — supported locales, locale phrases, and
  the bundled prompt assets per locale.
- `src/builders.rs` — chat, onboarding, pair and preview system prompts.
- `src/knowledge.rs` — instruction texts, chat/preview/pair inputs, and the
  Topic Talk tone classifier.
- `src/pair_topic.rs` — Topic Talk turn directives and their laws.
- `src/json.rs` — JSON text for the prompt-ready types, framed by the library
  with string escaping done by `serde_json`.
- `src/time_context.rs` — the current-time context; calendar formatting,
  time zones and durations are delegated to `chrono` and `chrono-tz`.
- `src/drop_seed.rs`, `src/error.rs`, `src/types.rs`, `src/prompt_inputs.rs`,
  `src/text.rs` — setup questions, errors, data types and string helpers.
- `app/` — serde-enabled mirrors of the data types, a `thiserror` error type
  and chrono conversions, for callers that need them.

## Example

```rust
use shadow_core::PromptTemplate;

let rendered = PromptTemplate::new("Hello {user_name}, today is {day}.")
    .render(&[("user_name", "Yuki")]);
assert_eq!(rendered, "Hello Yuki, today is {day}.");
```
