# pallet_ocw

A Substrate pallet with an off-chain worker. In each block the worker takes up one of five tasks:
it sends the block's number to the chain in a signed transaction, in an unsigned one, or in an
unsigned one with a signed payload; it fetches information about an organization from GitHub; or it
fetches the price of DOT and submits it. The chain keeps the latest ten numbers and prices.

- `src/` holds the rules, verified with Verus: the queues and who may add to them (`pallet`), which
  unsigned transactions are let in (`validity`), how a price is read (`price`), what is requested
  and what counts as an answer (`http`, `json`), and the worker's runs, step by step (`worker`).
- `tests/` runs the library on concrete values.
- `app/` is the FRAME pallet around it: storage, events, keys, the network and the transaction pool.
