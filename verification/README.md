# ce-integration

A two-node mesh check. Given the API addresses and tokens of two CE nodes, A and
B, a run proves that they reach each other and prints a matrix of outcomes:

| Scenario            | What it shows |
|---------------------|---------------|
| peering             | a directed send from A is delivered to B |
| mesh request/reply  | A's request is answered by B's reply loop |
| pubsub              | what A publishes lands in B's inbox |
| blob availability   | B fetches the very bytes that A stored |
| discovery + tags    | A finds B as a provider of the service that B advertises |
| tunnel              | bytes flow through a tunnel from A to a TCP port on B's host |

The exit code is 0 exactly if every scenario that was not blocked passed. The
tunnel is blocked, not failed, where no capability token is given.

## Layout

- `src/` is the verified library. Each scenario is a state machine: `pending`
  names the next thing to do, `step` takes in what came of it, `verdict` gives
  the outcome. `driver` strings the scenarios together, `report` renders the
  matrix, `replier` is B's reply loop, `text` and `config` hold the helpers.
  What is believed of other crates and of std stands in `outside`.
- `app/` carries out what the machines ask for: the SDK calls, the sockets, the
  clock, the environment.
- `tests/` runs the library.

## Settings

`CE_IT_A_BASE`, `CE_IT_A_TOKEN`, `CE_IT_B_BASE` and `CE_IT_B_TOKEN` are required.
`CE_IT_PEER_TIMEOUT_SECS` (default 45) bounds the wait for peering, and
`CE_IT_TUNNEL_CAPS` holds the capability token of the tunnel.
