# vkwave

The verified core of a framework for VK bots that read events from the bot
long-poll server.

- `src/` is the library, proved with Verus:
  - `text`: decimal form of integers, removal of a character;
  - `json`: the JSON values the library reads, and lookups in them;
  - `params`: request parameters, a map from names to values;
  - `api`: the address of an API method, the parameters every request
    carries, the reading of a reply, the error type;
  - `token`: access tokens;
  - `longpoll`: the long-poll state, its poll address, and the decisions
    taken on each reply, with the laws they keep;
  - `event`: reading message events and choosing a handler by text.
- `app/` is the bot program: HTTP, async tasks, serde, the `handler`
  code generation and `main`.
- `tests/` runs the library on concrete values.

The `echo` handler of the example bot is not carried over: it extracts its
arguments through a `framework::extractors` module that the framework does not
have. The `handler` code generation is kept in `app/codegen.rs` as plain
functions on token streams, since only a proc-macro crate can offer it as an
attribute.
