# solana_rpc_minimal

A minimal JSON-RPC server that exercises two kinds of lock around a
transaction sender, and a client that benchmarks it.

- `src/` is the verified library:
  - `port_search`: the search for a bindable port in a range, as a state
    machine that the caller feeds with the outcome of each bind; its laws say
    that every port is tried before the search fails and that the search ends
    with the first bindable port in its order.
  - `rpc`: the service settings, the method table, the replies, the request
    routing of the HTTP middleware and the transaction sender slot.
  - `bench`: the lock mode of a benchmark run and the span of the counter
    values it observes.
- `app/` holds the program: the HTTP server, the socket binding, the locks and
  the benchmark client (`app bench`).

The benchmark client sends its JSON-RPC calls with `minreq` and `serde_json`
rather than with `solana_client`: the Solana client crates bring in several
hundred packages, more than this build takes, and the client needs no more
than an HTTP POST of a JSON-RPC request and the `result` member of the answer.
