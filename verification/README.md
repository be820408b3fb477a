# kiro_proxy

A proxy meant to serve OpenAI- and Anthropic-style chat APIs on top of the Kiro
API, with a small web UI for users, API keys and a pool of shared Kiro accounts.

Status: the converters from the chat request formats to Kiro's payload, and the
parser of Kiro's event stream, are not part of this crate. The chat and messages
endpoints authenticate and validate a request, then answer it with a
configuration error ("Request conversion to the Kiro format is not available in
this build"); no usage is recorded. `/v1/models` lists the model names, each
prefixed with the value of the `MODEL_FAMILY` variable and a hyphen when it is
set.

The library under `src/` is written in Verus: its functions carry `requires` /
`ensures` contracts and are proved, and the laws that span several functions
are stated as public proof functions named `law_*`.

- `json`, `text`, `codec`, `crypto`, `ids`: JSON values and their compact text,
  string helpers, URL decoding, hashing and identifiers.
- `models`: the request, response and stream types of the Kiro, OpenAI,
  Anthropic and Responses APIs, with their JSON forms.
- `converters`: Responses requests to the unified conversation (messages, tool
  calls and results, tools), and Kiro responses to OpenAI and Responses answers
  (streamed and collected).
- `truncation`, `tokenizer`, `conversation_log`, `streaming`: detection of
  truncated tool calls, token estimates, header sanitising, SSE framing.
- `auth`, `tasks`, `http_client`, `pool`, `middleware`: credentials and token
  refresh, the retry policy, round-robin over pooled accounts and the
  authentication state machine; `cache` declares the concurrent maps that
  remember truncation events.
- `web_ui`, `routes`, `config`, `db`, `error`: the web UI's rules and bodies,
  route helpers, configuration and its validation, database rows and errors.

`app/` holds the executable around the library: the axum server, the database
queries, the background tasks and the calls to the Kiro and OIDC services.
