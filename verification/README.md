# auto_coordinator

The decision core of an autonomous coding coordinator, written in Rust and verified with Verus.

A coordinator leads a coding session. It asks a model what to do next, checks the reply, hands an
instruction to a command line agent and, where it helps, launches helper agents. It keeps to a time
budget, waits out rate limits, moves to another account or model when one is used up or unknown,
keeps the history within what the model can take in, and stops when the mission has ended.

## Layout

- `src/` is the library. Its functions carry contracts that are proved, but for the few outside
  calls whose contracts are taken on trust and for reading the clock, of which nothing is claimed.
  - `text`, `time`, `calendar`, `json`, `json_text`: texts, spans of time and JSON.
  - `items`, `events`, `turn`: the conversation, what is announced and what is told.
  - `clean`, `models`, `extract`, `decision`, `convert`, `parse`: from a reply to a decision.
  - `recovery`, `attempts`: faulty replies that can be asked for again.
  - `errors`, `rate_limit`, `retry`, `accounts`, `fallback`: what to do after a failed request.
  - `budget`, `compaction`: the time that is left, and the length of the history.
  - `role`, `prompts`, `schema`, `ask`, `stream`, `request`: the question and its answer.
  - `coordinator`: what the coordinator does next and what it makes of what it is told.
  - `conduct`, `run`: what holds of every step of a mission, and of missions as a whole.
- `app/` is ordinary Rust around the library: the thread, the channels, the model's stream, git, and
  the forms of the library's types that `serde` reads.
- `tests/` holds the tests.

Laws, the properties that span several functions, are the public proof functions whose names begin
with `law_`. The few outside functions whose contracts are taken on trust are marked
`external_body` or `assume_specification`; a comment above each says what is claimed of it.
