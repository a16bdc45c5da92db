# local_agent

Chat with language models that a terminal agent reaches by itself, through Ollama
or OpenRouter, with every decision on the way verified in Verus.

- `src/` is the library. It decides which model a request is for, what the model
  is shown of the conversation, how a streamed answer is read, which events an
  exchange sends and in what order, and what a tool call of a model asks for. The
  modules named `*_laws` state what holds over several calls.
- `tests/` runs the library on concrete values.
- `app/` attaches the outside world: HTTP, channels, tasks, and the JSON form of
  the protocol types.

The library trusts a few calls that it does not prove: parsing JSON text with
`serde_json`, fresh identifiers from `uuid`, lossy UTF-8 decoding, the clock and
the debug form of a list of strings from the standard library. Each stands in a
small function of its own, with what is claimed of it.
