# collect_failable

Collections that are built from, or extended by, iterators in ways that may fail: on a
colliding key or value, or when the number of items does not fit the collection's capacity.
Every failure hands back everything that was taken from the iterator, and extension comes in
two strengths: item by item (the items added before a failure stay), and all at once (a failure
leaves the collection as it was).

## Layout

- `src/iter.rs`: `ItemIterator`, the iterators the library reads, and `SeqIter`, an iterator over
  items held in memory.
- `src/size_hint.rs`: `SizeHint`, the bounds an iterator reports on its length.
- `src/traits.rs`, `src/collect_failable_ext.rs`: `TryFromIterator`, `TryExtend`,
  `TryExtendSafe`, `TryExtendOne`, and `try_collect_ext`.
- `src/errors/`: the error types, each keeping the items taken.
- `src/impls/`: the collections. `macros.rs` holds the algorithms shared by the keyed
  collections (maps and sets of the standard library, `indexmap` and `hashbrown`) and the laws
  they obey; `arrays/` fills fixed-size arrays; `array_vec.rs` is a vector with a fixed
  capacity; `result_iter.rs` reads the `Ok` values of an iterator of `Result`s; `tuples.rs`
  extends a pair of collections.
- `app/`: the text of the errors, and collecting an iterator of `Result`s through a shared
  iterator state.

Every function of `src/` carries a contract that Verus proves; the functions of the outside
crates it calls are described by the small trusted wrappers next to their callers.
