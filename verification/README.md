# heimdall

A small x86_64 hobby kernel whose console and interrupt logic is verified
with Verus.

- `src/` is the verified library:
  - `vga_buffer` — colours and attribute bytes, the 80x25 text screen model,
    the `Writer` (bytes, strings, characters, backspace, arrows, recolouring),
    the values written to the VGA cursor registers;
  - `vga_laws` — properties that span the writer's operations (writing in
    pieces, backspace after a write, arrows undoing each other, recolouring
    keeping text, well-formedness, the cursor following the writing position,
    coloured and plain printing differing only in colours);
  - `interrupts` — interrupt vectors, the timer's colour cycle, and what a
    scancode does to the console: the `pc-keyboard` decoder's answers are
    named over the bytes and events it has been given, and the effect of
    each decoded key is stated exactly;
  - the screen model is a fixed array, so nothing needs a heap;
  - `gdt` — the double-fault stack slot and size.
- `app/` is the kernel around it: boot entry, GDT/TSS/IDT loading, the PICs,
  port I/O, the memory-mapped VGA buffer that mirrors the writer's model, and
  the `print!`/`println!` macros. It needs a nightly toolchain for the
  `x86-interrupt` calling convention.
- `tests/` runs the library on concrete screens and scancodes.
