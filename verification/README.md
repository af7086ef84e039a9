# valkey_roaring

Roaring bitmaps for Valkey: the `R.*` (32-bit values) and `R64.*` (64-bit
values) command families, with the logic of every command written in Verus
and proved against its contract.

- `src/bitmap_type.rs` — the `RoaringType` interface; a bitmap is modelled as
  the finite set of values it holds.
- `src/bitmap32.rs`, `src/bitmap64.rs` — `RoaringType` for
  `roaring::RoaringBitmap` and `roaring::RoaringTreemap`; the calls into the
  `roaring` crate sit behind small trusted wrappers, everything around them
  (nth absent value, flipping, bit strings, statistics) is proved.
- `src/commands.rs`, `src/commands_bitop.rs` — what each command computes
  from its parsed arguments and the bitmaps its keys hold, including the
  BITOP set algebra.
- `src/parse.rs`, `src/error.rs`, `src/stats.rs` — argument parsing, error
  replies, `R.STAT` renderings.
- `src/laws.rs` — properties across calls: flipping twice, bit-string and
  export/import round trips, and agreement of the 32-bit and 64-bit
  families.
- `app/` — the Valkey module itself: type registration, persistence, key
  access and replies, over the library.
