# elcarax

The logic of the Elcarax editor as a Verus-verified library, with a thin
console program around it.

- `src/` is the library. Each module states its behaviour in `requires` /
  `ensures` over spec models (`View`s of its types) and Verus proves it:
  identifiers and their generator, diagnostics, the viewport state, the
  command registry, key bindings and their conflicts, undo/redo history,
  asset paths, kinds, records, the sorted asset index, the asset scanner
  (a state machine fed with directory listings), watch-event coalescing, the
  adapter wire frame format, the adapter session and host decisions, the
  editor's command routing and availability, the toolbar, and the asset,
  adapter and viewport panels. Laws that relate several functions are
  public proof functions named `law_*`.
- Work that touches the disk, processes, threads or JSON is done in `app/`:
  reading directories for the scanner, running `notify` watchers, spawning
  an adapter process and moving frames over its pipes, and serde's JSON
  form of the protocol messages. The library hands such work out as steps
  (`AssetStep`, `AdapterStep`, `ScanStep`) and takes the outcome back.
- `tests/` exercises the library on concrete values.
