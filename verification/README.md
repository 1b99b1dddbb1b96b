# raffle

Verified logic of the Tikka raffle protocol on Soroban: a factory that
registers raffle instances under stable ids, protocol configuration behind a
48-hour timelock, and raffle instances that sell tickets, draw winners and pay
tiered prizes less a protocol fee.

- `src/` is the library, written and proved with Verus. Each contract entry
  point is a method on the contract's storage (`factory::RaffleFactory`,
  `instance::Contract`, `raffle_instance::Contract`) whose `ensures` states
  the resulting storage, the returned value and, for every error, exactly when
  it is returned. Token movements and calls into other contracts are returned
  as values (`Transfer`, `InstanceCall`, `FeeRoute`) for the host to perform.
  - `address`, `table`: addresses and the key-value storage model.
  - `shared`: configuration, status enums, pagination helpers.
  - `factory`: the registry, timelocked configuration, admin controls.
  - `instance`, `raffle_instance`: the raffle instances.
  - `crypto`: SHA-256 through `soroban-sdk`, and the XDR byte layouts of
    the contract values that get hashed.
  - `laws`: properties across several calls (timelock, admin handover,
    stable ids never reused, paging).
- `tests/` runs the library on concrete values.
- `app/` is the host side: authorization, address existence, ledger reads,
  token transfers, deployment and cross-contract calls.
