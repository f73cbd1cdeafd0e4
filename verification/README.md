# precompile_mock

The test runtime of the EVM precompiles, with its computing parts verified by
Verus.

- `src/` is the verified library: the named accounts and EVM addresses of the
  test chain and the account an EVM address maps to (`accounts`), its
  currencies (`currency`), fixed-point prices built with sp-arithmetic
  (`fixed`), the proxy filters and their covering order (`proxy`), the mock
  price, block-number, shutdown, gas and exchange-rate providers
  (`providers`), and the genesis plan and block-stepping of the test chain
  (`genesis`).
- `app/` wires the library into the runtime configuration: the pallet
  configurations, the runtime itself, genesis storage and the block loop.
