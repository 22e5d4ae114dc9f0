# chaincircle

The rules of the ChainCircle savings and lending contracts, written in Verus
and proved against their contracts.

- `src/` — the verified library: party identifiers (`address`), the credit
  score ledger (`credit_score`), the microloan book (`microloan`) and the
  rotating savings circle (`savings_circle`). Each contract is a record with
  transitions whose `ensures` give the next record, or the refusal, exactly;
  the proof functions beside them state the laws that span several calls
  (the credit history after any interleaving of contributions, repayments
  and defaults; contributions accumulating; settled loans staying settled;
  the payout rotation).
- Host values are held as plain values: a party as the bytes of its
  strkey, and the circle's member lists, which on the ledger are host
  vectors living only inside a host environment, as ordinary `Vec`s of
  those parties.
- `app/` — the Soroban contracts: storage, authorisation and the ledger
  clock, converting host values to the library's records and back.
- `tests/` — unit tests of the library.
