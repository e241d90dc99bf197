# llmur

The verified core of an OpenAI-compatible LLM gateway that fronts OpenAI,
Azure OpenAI and Gemini deployments.

`src/` is a Verus library. It holds the gateway's rules with their
contracts: how an uploaded batch file is checked, split into one provider
file per deployment and read back in order through its line map; how the
statuses, counters, timestamps and file references of provider batches are
reconciled into the virtual batch the caller sees; the OpenAI-surface view
of a batch; credential parsing and caller authorisation; the URLs and
headers of upstream calls; server-sent-event framing and the rewriting of
provider streams into OpenAI chat completion and Responses events;
failover across connections; the order of work when a batch is created or
cancelled across providers; the normalisation of batch output lines and of
chat completion stream chunks, read and rewritten through `serde_json`;
and the request log records. Laws that relate
several functions are public proof functions named `law_*`.

`app/` is ordinary Rust around it: the serde forms of the wire types, the
parsing of batch input lines into those types, and the relay of Gemini
streams.

`tests/` exercises the library on concrete values.
