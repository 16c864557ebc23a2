# switchyard

A provider-neutral protocol for conversations with large language models, with verified
behaviour. The library is written in Verus: each function states what it returns or changes, and
the statements are proved.

- `llm`, `model`: conversation types, and the mathematical contents that contracts speak of.
- `stream`, `accumulate`, `replay`: response chunks and events, folding a stream into a buffered
  response, and turning a buffered response into a stream that folds back to it.
- `client`: failures and decisions of routed calls.
- `json`, `text`, `order`, `format`: JSON documents, text order, maps by index, wire formats.
- `describe`: descriptions of content blocks in messages to people.
- `translation`, `stream_state`: policy, errors, diagnostics and state that codecs share.
- `bedrock`: codecs for Amazon Bedrock Converse bodies and ConverseStream events, with their laws.

Proof functions named `law_*` state what holds across functions, such as what decoding gives back
of an encoding.

`serde_json` parses and prints JSON text, and `format!` writes documents and quoted strings in
descriptions. The functions that make these calls are marked and documented where they stand, in
`json` and in `describe`.

`app/` is the host side: serde forms of the conversation types, live streams, the codecs on
`serde_json` values and the asynchronous client trait. `tests/` runs the library on concrete values.
