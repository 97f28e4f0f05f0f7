# chat_server

A chat service in front of an Azure OpenAI deployment. Users ask questions;
answers are streamed back as server-sent events and recorded in
conversations; users without an active VIP membership have a daily quota.

- `src/` is the verified library (Verus): the quota rules (`quota`), the
  requests sent to the model and the messages pushed to clients (`chat`),
  the rows written for conversations (`conversation`), the page queries of
  the listings (`requests`), decimal and identifier text handling (`text`),
  error codes (`chat_error`) and the API document's scheme name (`api_doc`).
- `app/` is the server around it: HTTP endpoints, the cache, the database,
  the clock and the calls to the language model.
- `tests/` runs the library on concrete values.
