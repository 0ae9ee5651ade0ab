# rgb_utils

RGB assets in Lightning channels: what a node records of them in its key-value store, and how its
commitment, HTLC and closing transactions are to be colored.

- `src/` is the library, verified with Verus.
  - `records`, `contract_id_serde`, `text`, `ids`: the records, their encoding and their keys.
  - `store`, `rgb_store`, `memory`: the key-value store, the RGB records in it, and a store in
    memory.
  - `channel`: the balances of a channel, new payments, and the renaming of a channel.
  - `htlc_records`, `commitment`, `htlc`, `closing`, `coloring`, `amounts`: what goes to which
    output of a transaction, and what is recorded of it.
  - `transaction`: transactions, PSBTs, and the transaction that a colored PSBT holds.
  - `funding`, `wallet`: the acceptance of the transfer that funds a channel, and the settings of
    the wallet.
- `app/` joins the library to the wallet, to the store of a node and to serde.
- `tests/` runs the library.

A commitment transaction is colored in three steps. `color_commitment` records the payments behind
its HTLCs and says what goes where; the wallet colors the PSBT; `extract_colored_tx` and
`finish_commitment` take the colored transaction out of it and record the outcome. HTLC and closing
transactions go the same way.
