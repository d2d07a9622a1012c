# counsel

A "private board of advisors" service: a case owner describes a decision,
a panel of historical personas questions, argues and advises, and a
facilitator and secretary run the session step by step. Personas can also
chat in group rooms, and an operator dashboard aggregates usage.

The library in `src/` is written in Verus and verified: its functions carry
`requires`/`ensures` contracts that the verifier proves, except where a
result is a clock reading (`ConversationContext::elapsed_ms`), of which
nothing can be stated.

- `text`, `markdown` — character-level string operations and the markdown
  section reader the persona files and model replies are parsed with.
- `wisdom` — persona files (theory, voice, cadence, lifeline, situation
  cards), the layered system prompt, and the persona registry.
- `fingerprint` — the keyword pressure fingerprint of a case.
- `prompts`, `personas` — the step prompts and the built-in persona texts.
- `counsel`, `steps`, `flow` — session state, reply parsers, and the
  decisions of each step (define machine, step plans, file contents).
- `sse`, `relay` — line decoding of streamed model replies and the relay
  that forwards them in pieces without losing or reordering text.
- `conversation`, `model` — conversation logs, chat messages, token
  estimates.
- `api`, `chat`, `admin`, `auth`, `chatflow` — the rules of the HTTP layer:
  validation, classification, chat rooms, dashboard aggregates and
  orderings, password hashing.

`app/` is the server around the library (axum, SQLite, model providers over
HTTP, files on disk). It keeps the SQL queries and their small joins, and
the card ranking by cosine similarity, which works on floats. The session
steps' store of files is not part of this build, so their HTTP routes are
absent; their decisions and texts are in `flow`, `steps` and `prompts`.
