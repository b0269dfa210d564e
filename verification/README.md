# sibyl — the deck-creation core of a personal tarot deck

`sibyl` decides everything deterministic about creating a tarot deck for one person:
which images to generate, under which prompts, seeds and storage keys; how the sample
court card is chosen and composited; what approval copies into the deck bundle; and how
personal inputs stay out of debug output. The library is written in Verus: every function
in `src/` is verified against its contract, except the five small wrappers around outside
calls (`String::push`, the seeded ChaCha20 pick, PNG decoding and encoding, base64), whose
contracts are trusted.

Generation, storage and serialization happen in the host (`app/`), which performs each
step's plan in order and hands the results back.

## Layout

- `src/suit.rs`, `src/court.rs` — the four suits and the sixteen court cards.
- `src/rng.rs` — seeded court-card selection (ChaCha20) and FNV-1a sub-seeds.
- `src/model.rs` — the wizard session, style options, style guide, sample card, deck and
  provenance; `Personal` text that renders redacted.
- `src/debug_text.rs` — the debug rendering of a whole session, personal fields redacted.
- `src/prompt.rs`, `src/rules.rs` — rules-first prompt composition and the artifact rules.
- `src/providers/` — provider errors and ids, the offline `FakeProvider`, SVG extraction
  and the command-line adapters' decisions.
- `src/render.rs` — canonical CPU compositing of PNG layers over a solid canvas.
- `src/pipeline/` — each wizard step as a plan: icon rounds, style choice and style
  guide, the sample, approval and rejection.
- `src/storage.rs` — storage keys, the active-deck pointer and key sanitizing.
- `src/commands.rs` — command-layer error codes and asset payloads.
- `src/text.rs` — string helpers with their specifications.
- `app/` — async providers, filesystem store, JSON wire types and the orchestrators.
- `tests/` — scenario tests over the library, driven offline.

## Laws proved

Among the proof functions: the sixteen court cards are complete and distinct and their
slugs injective; rules precede the style in every composed prompt; every planned icon
option covers all four suits; options of different rounds never share an id; an approved
deck references only keys its copies create; approving a session again yields the same
deck; an asset's base64 payload decodes back to its bytes;
storage keys cannot escape the store's base directory; and the debug renderings of
provenance and sessions depend on personal fields only through their emptiness.
