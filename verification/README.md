# lnp_channel

The core of a daemon that runs one Lightning channel, with contracts that Verus checks: how a
channel is accepted, funded, signed and locked, which id and which funding address it has, and
what the daemon tells the rest of its node meanwhile.

- `src/` is the verified library. `runtime` holds the state, `setup` and `handlers` the
  operations, `transitions` what each step of an operation does, and `laws` what holds of a
  channel as a whole. The rest are the types and formulas that these speak of.
- `app/` puts the channel on the buses of a node: it sends, signs and asks what the steps of an
  operation call for, and converts the messages of the protocol libraries.
- `tests/` runs the library on concrete values, against the protocol libraries where they compute
  the same.

An operation is a sequence of steps. Each returns a `Step`: reports to make, and what the
operation waits for. Whoever runs the daemon does that and hands the outcome back.
