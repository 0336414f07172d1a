# StateSet ICP handler

A handler for the Intelligent Commerce Protocol (ICP), with its rules verified in
[Verus](https://github.com/verus-lang/verus). Agents quote, authorize, buy,
subscribe, negotiate, pay each other and return, under mandates that bound what they
may spend. Every change is answered with a signed receipt that anyone can check with
the key that the handler publishes.

## Layout

`src/` is the verified library. Nothing in it touches the network or the disk: times
and the replies of the outside world are arguments. Only the rate limiter reads a clock,
and only keys, reservations and the events of a sweep draw random numbers.

| Module | What it holds |
|---|---|
| `service` | The intents. `service::run` takes an intent from admission to its answer and says at each stop what it waits for. |
| `mandate` | What a mandate allows, its signature, and the ledger of what was spent. |
| `signing`, `receipts`, `jws` | Receipts: signing, checking, keeping. |
| `idempotency`, `rate_limit` | Retries that are answered once, and limits per window. |
| `resolver`, `agent`, `auth` | Keys of principals, API keys, agents. |
| `pricing`, `commerce`, `decimal` | Baskets, taxes, discounts, billing periods, and amounts as the commerce engine counts them. |
| `handlers`, `grpc`, `mcp`, `compat` | What the surfaces decide: headers, filters, pages, tools, and the two compatibility protocols. |
| `conformance` | What a running handler must show, judged from its responses. |
| `documents` | Answers, receipts and events as documents: what goes over the wire, and what receipts are signed over. |
| `config`, `startup`, `state_db`, `webhook`, `metrics`, `discovery`, `events` | Settings, start, migrations, deliveries, counters and the discovery document. |
| `text`, `numerals`, `json`, `table`, `time`, `arith`, `listing`, `crypto` | Foundations. `crypto`, `decimal`, `time` and `json` call outside crates, each call behind a stated contract. |

Properties that span several functions are public proof functions whose names begin
with `law_`.

`app/` is the program around the library: the HTTP server, the tool server on standard
input and output, the tester for running handlers, the state database and the commerce
engine.

`tests/` runs the library on concrete values.
