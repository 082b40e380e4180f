# openai_compat

The rules of a provider that speaks the OpenAI chat completions protocol, verified with
Verus.

- `src/provider.rs`, `src/request.rs`: the provider and the requests it plans.
- `src/exchange.rs`, `src/usage.rs`: one exchange, stage by stage, from the request body to
  the delivered reply and its usage.
- `src/stream.rs`: how the messages of a streamed response are logged and handed out.
- `src/idle.rs`, `src/idle_laws.rs`: the idle timeout of a streamed response, and what it comes
  to over a whole stream.
- `src/models.rs`: the models that a provider lists.
- `src/json.rs`, `src/text.rs`, `src/error.rs`: JSON trees, strings and errors.

`app/` runs these rules over HTTP. It expects a backend that has the HTTP client, the wire
formats and the request log.
