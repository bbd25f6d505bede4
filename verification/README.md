# gambling

A betting contract for CosmWasm chains, with its decisions verified in Verus.

- `src/` is the verified library: reward computation (through
  `cosmwasm_std::Decimal`), settling a bet, instantiation, query answers,
  and the decimal rendering of amounts in response attributes. `laws.rs`
  holds the properties that span calls.
- `app/` is the contract as the chain runs it: entry points, storage
  (`cw-storage-plus`), address checks, bank queries and JSON encoding. It
  reads what the library needs, calls it, and stores what comes back.
- `tests/` exercises the library on concrete values.
