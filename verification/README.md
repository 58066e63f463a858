# psp

A support library for PSP homebrew whose logic is verified with Verus.

- `src/vram_alloc.rs` — the VRAM bump allocator, texture memory sizes, and the
  proof that successive allocations never overlap.
- `src/screenshot.rs` — reading a 32-bit framebuffer into a screenshot and
  encoding it as a bitmap file.
- `src/framebuf_gfx.rs` — pixel stores into the 16-bit LCD framebuffer, with
  colour conversion through `embedded_graphics`.
- `src/sys/ge.rs`, `src/sys/gu.rs` — graphics-engine command words and the
  graphics-unit state: initialisation list, reset, enabling and disabling
  states, starting and finishing lists, list memory, conditional objects,
  draw and display buffers, textures, primitives, patches, lights, image
  transfers and clears, each as the exact words it appends to a list.
- `src/lib.rs`, `src/sys/` — module information, library names, colour
  packing, vertex formats, and the plain data layouts of the system libraries.
- `app/` — the unverified glue: system calls, raw VRAM pointers, the
  program-wide allocator and graphics state, the commands that take float
  arguments (viewport, fog, matrices, light positions, depth scale), and the
  `embedded_graphics` drawing target.
