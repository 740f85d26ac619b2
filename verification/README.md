# auv2

The logic of an Audio Unit (AUv2) plug-in backend, verified with Verus.

- `src/sys.rs` — the AudioUnit C API's scalar types, status codes,
  selectors, property and scope numbers, format codes, and `fourcc`.
- `src/properties.rs` — the property table (`info`), element counts, the
  stream format, and the NUL-terminated, character-boundary-safe copy of a
  parameter name (`write_name`).
- `src/wrapper.rs` — which selectors the unit answers (`lookup`) and how an
  instance's state moves under `Open`, `Close`, `Initialize` and
  `Uninitialize` (`UnitState::handle`).
- `app/` — the `#[repr(C)]` records, the factory and the C function pointers
  a host calls, built on the library. Floating-point values cross into the
  library as their bit patterns.
