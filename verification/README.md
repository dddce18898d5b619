# appchain_registry

The registry of the appchains of Octopus Network, as a verified library and a
NEAR contract around it.

* `src/` is the library, verified with Verus. The registry is a state machine:
  each request takes the calling account and the block time, and is either
  refused with a `RegistryError` (the registry left as it was) or applied, in
  which case it may hand back a `RegistryAction` for the host to perform (an
  OCT transfer, the creation of an anchor account, a call into an anchor
  contract, a deployment of staged code). Every request states in its contract
  exactly when it is refused, with which error, and what it leaves behind.
  `src/laws.rs` holds the properties that span requests.
* `app/` is the NEAR contract: it keeps the registry in contract storage, reads
  the JSON messages and arguments, performs the actions as promises, and turns
  refusals into panics with their messages.
* `tests/` runs the library on concrete scenarios.

Checks and conversions that `near_sdk` and `near_contract_standards` perform
(account ids, public keys) are called from the library through a few trusted
functions in `src/accounts.rs`, each documented with what it claims.
