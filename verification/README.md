# ct2rs

A binding to the CTranslate2 text generator, with its own logic verified by Verus.

- `src/` is the verified library: generation options and their defaults (`generator/options.rs`),
  the per-step callback that may stop a generation (`generator/callback.rs`), generation results
  (`generator/result.rs`), the step result handed to callbacks (`types.rs`) and the batch type
  (`config.rs`). Real-valued options and scores are held as the bit patterns of IEEE 754
  single-precision numbers; the library only passes them on.
- `app/` is the cxx bridge to the C++ engine: the `Generator` handle, model loading, batch
  generation, the queue and replica counts, and the conversions between the bridge's structs
  and the library's types.
- `tests/` runs the library.
