# pallet-kitties

A verified kitties marketplace: accounts create kitties with random genes, breed new
kitties from two parents, hand them over, put them up for sale and buy them.

- `src/types.rs`: identifiers, kitties, origins, errors, events and `ensure_signed`.
- `src/model.rs`: the storage as mathematical maps, and what each call does to it.
- `src/pallet.rs`: the pallet's storage and calls, each proved against the model; the
  runtime's currency and randomness come in through the `Config` trait.
- `src/dna.rs`: mixing of the parents' genes.
- `src/primitives.rs`: the calls into `sp_io`, `parity-scale-codec` (through
  `frame_support`) and `sp_runtime`, with the contracts they are trusted to meet.
- `src/migrations.rs`: upgrade of kitties stored in older layouts.
- `src/laws.rs`: properties of all calls, such as storage consistency and that failed
  calls change nothing.
- `app/lib.rs`: glue to a FRAME runtime (storage encodings, currency and randomness, error
  conversion, the storage side of the migration).
