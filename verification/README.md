# fromsoftware

Verified models of the input-handling structures of FromSoftware games.

- `src/` (verified with Verus):
  - `dluid::bitset` — `DynamicBitset`, bits packed 32 per integer; `get`/`set`
    are specified over the sequence of bits, with laws on reading back writes.
  - `dluid::virtual_input` — analog and digital virtual input data and the
    device that holds it (analog `f32` values are held as their bit patterns).
  - `dluid::devices`, `dluid::di_key` — DirectInput mouse and keyboard states,
    XInput button words, the devices' plain data.
  - `fd4::pad_manager` — the pad lookup of `FD4PadManager`, action codes.
  - `ds3` — recognising supported Dark Souls III executables.
- `app/` — process-side glue: reading the running executable (`pelite`,
  `windows`), calling the game's pad functions (`vtable-rs`), `f32` views and
  the imgui debug display (`hudhook`).
- `tests/` — tests of the library on concrete values.
