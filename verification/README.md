# finvoice

Invoices as NFTs on Solana: an issuer creates an invoice, an attestor
vouches for it, the issuer lists it for sale, a buyer pays into escrow and
receives the invoice's NFT, and the escrow is paid out at settlement; past
its due date an invoice can be marked defaulted.

- `src/` is the verified library: the invoice and listing accounts
  (`state`), the checks and effects of each instruction (`instructions`),
  the transfers they ask for (`cpi`), the program's entry points
  (`finvoice`) and the laws of the lifecycle (`lifecycle`).
- `app/` is the Anchor program around it: account validation, the clock,
  cross-program invocations and events.
- `tests/` runs the library on concrete accounts.
