# trustline_sdk (verified core)

Trustline protects Soroban smart contracts: before a sensitive operation, a
contract asks a Validation Engine (VE) to confirm that an off-chain oracle has
approved the intent `(sender, value, data)`.

- `src/` is the verified library (Verus). It decides what the contracts do:
  the layout of intent `data` (`calldata`), intent and final transaction ids
  (`intent`, with `xdr` and `crypto` wrapping the Soroban/Stellar encoding and
  hashing), the VE request each helper issues (`engine`), and the state
  machines and plans of the example contracts (`firewall`, `forwarder`,
  `counter`, `mock_engine`, `trustlined_client`).
- `app/` holds the Soroban contracts themselves: storage, authorization,
  events and cross-contract calls, performed around the library's decisions.
- `tests/` exercise the library, including cross-checks of its encodings
  against `soroban_sdk`'s own `to_xdr` and `sha256`.
