# libgfxinit

Rust bindings to the small C ABI that coreboot layers over the Ada
`libhwbase` + `libgfxinit` Intel GMA display library, with the binding's own
logic verified by Verus.

- `src/port.rs`: connector ports and their `libgfxinit.h` ABI values, both ways.
- `src/status.rs`: EDID block type, error type, and what the status values of
  `gma_gfxinit` and `gma_read_edid` mean.
- `src/framebuffer.rs`: the framebuffer description, its stride in pixels,
  and the store that keeps the last description announced by the Ada bridge.
- `src/sources.rs`: where the bundled Ada source trees lie.
- `app/lib.rs`: the raw ABI calls, Ada elaboration, and the global store that
  the exported callback writes, built on the library.
