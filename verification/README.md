# alloy-evm

The core of a multi-chain Ethereum block executor, written and proved in Verus.

- `src/` is the verified library.
  - `primitives`, `env`, `tx`, `result`, `error`: the plain values that the rest works on.
  - `precompiles`, `hardforks`, `requests`: rule sets, fork schedules and requests, on top of
    `revm`, `alloy-hardforks` and `alloy-eips`.
  - `evm`, `eth`: the virtual machine, its builder and its factory. How a transaction runs, with
    an inspector or without, is left to the database type, through `eth::ExecuteEvm`. A run reads
    the machine and gives its effects back as its outcome.
  - `empty`: machines over the empty database of `revm`.
  - `eth::gas`, `eth::receipts`, `eth::hook`, `eth::block`, `eth::finish`: the block executor. The
    steps before the transactions are handed out one by one, and the end of a block is a chain of
    types, one for each piece of work on the state that it waits for.
  - `balances`: what is paid at the end of a block.
  - `op`: the stub of the OP machine.
- `app/` is ordinary Rust around it: an engine that runs machines with `revm`, a driver that
  performs the work on the state, the rules of a plain chain, how a builder is shown, and the
  methods of the OP stub that panic.
- `tests/` runs the library.
