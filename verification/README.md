# exchange_core

The core logic of a prediction-market exchange, written in Verus and
proved against its contracts.

- `src/` is the verified library:
  - `precision`: decimal places per asset, and conversion between stored
    integer amounts and decimal text (with the proof that reading back a
    written amount gives the amount);
  - `models`, `error`, `config`: accounts, audit records, errors with their
    gRPC codes, and service settings;
  - `ledger`: the decisions of the balance endpoints (freeze, unfreeze,
    deduct, deposit, withdraw, transfer, lock, unlock, settle, checks), with
    laws such as "unfreeze undoes freeze" and "a transfer keeps the sum";
  - `auth`: permissions, token hashing, token claims and the refresh and
    API-key checks;
  - `gateway`, `listing`: the API gateway's steps between backend calls
    (authentication middleware, the create-order and login flows, wallet,
    market and order endpoints), as functions from what a call gave to what
    happens next;
  - `sql`, `numtext`, `strutil`: query text (assets as quoted literals, with
    the law that each reads back as the asset), integer text and string
    helpers.
- `tests/` runs the library on concrete values.
- `app/` is the unverified host side: settings from YAML, JWT signing and
  reading, gRPC statuses, JSON bodies, and drivers that run the balance
  endpoints (including freeze-and-deduct, lock, unlock, settle and the batch
  lookup), the middleware, the create-order and login flows, API-key checks,
  and the wallet, market and order endpoints against the store and backend
  calls a server supplies.
