# dyncord

A Discord bot framework, verified with Verus.

- `src/` is the library: the tokenizer and readers of command arguments, the splitting of
  messages into prefix, command name and arguments, the routing of messages and interactions
  to prefixed, slash and message commands and to buttons, the validation of slash commands,
  the gating of commands behind permission checks, the propagation of errors through layers
  of error handlers, the choice of the event handlers an event reaches, and the embed and
  message-component builders. Every public function there carries a contract that Verus
  proves.
- `app/` is the I/O shell: the gateway connection, the HTTP client, the async runtime, the
  cache backends (Redis) and the conversions between Discord's types and the library's plain
  values. Handlers are registered in tables and referred to by position from the library.
- `tests/` exercises the library on concrete values.
