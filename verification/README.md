# ring0

A small tool-using chat agent on the Anthropic Messages API, written as a
Verus library with a thin program around it.

- `src/` is the verified library: the message model of the Messages API, the
  state of one conversation (when it goes on, which tools it waits for, what
  it answers), the tool protocol, the records of the call log, the texts that
  the tools give back, and the fixed-length chunking of texts for retrieval.
  Verus proves every function there against its contract (the constructor
  of the field-less Ollama client and the empty `load_tools` have nothing
  to state); the few calls
  into `serde_json`, `tavily` and std that it makes stand behind trusted
  wrappers whose doc comments say what is assumed of them.
- `app/` is the program: the HTTP calls, the clock, the files, the wire format
  (serde copies of the library types), the tool implementations, the
  embeddings and the vector search, which work on floating-point numbers.
- `tests/` runs the library on concrete values.
