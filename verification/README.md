# open_ai_compatible

The decisions of a language-model provider for servers that speak the OpenAI
protocol, verified with Verus.

- `src/` is the library. It decides which API key is in force, when the command
  that fetches a key runs, how a request recovers once from an expired key, what
  each configured model offers and what the configuration view shows. It sends
  nothing and runs no command.
- `app/` carries the decisions out: it runs the command, sends the requests and
  asks the credential store, over interfaces that a host implements.
- `tests/` runs the library on concrete values.

`text`, `helper` and `tokens` hold what is taken on trust of the standard
library, `convert_case` and `tiktoken-rs`; each such item says what it claims.
