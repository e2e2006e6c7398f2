# golem_ai

Verified core of three LLM-backed Golem components:

- an **entry categorizer**, which asks a chat model to turn a raw entry of a
  planning document into a structured entry and a second model to check it;
- an **input analyzer**, which asks a chat model to split a document into raw
  entries and has each of them categorized, by blocking calls or by concurrent
  remote calls that finish in any order;
- a **conversational worker**, which forwards questions to an Ollama model and
  keeps the history of successful exchanges.

## Layout

- `src/` — the library, verified with Verus:
  - `common.rs`: request/response shapes of the Ollama and OpenAI APIs,
    request construction, reply access, the authorization header;
  - `text.rs`: Unicode whitespace trimming and removal of the markdown fence
    around JSON replies;
  - `categorizer.rs`: instructions, prompts and requests of the categorizer,
    entry conversions, handling of the verification verdict;
  - `analyzer.rs`: instructions and request of the analyzer, blocking
    categorization of the found entries;
  - `pending.rs`: bookkeeping of a batch of calls that complete in any order;
  - `worker.rs`: the worker's prompt, history and recording of answers.
- `app/` — the I/O around it: HTTP calls (reqwest), JSON encoding and decoding
  (serde), environment access, polling of remote calls (golem-rust) and the
  per-worker state.
- `tests/` — tests of the library.
