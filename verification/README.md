# egui3ds

The verified core of an [egui](https://github.com/emilk/egui) backend for the
Nintendo 3DS.

- `src/` is the library, checked by Verus:
  - `ime.rs`: the software-keyboard bridge. When egui asks for text input the
    3DS keyboard applet is opened; the entered text is then replayed into the
    focused field as select-all, backspace, the text, and escape.
  - `texdelta.rs`: egui texture updates. Each update is classified against the
    stored texture (create, reuse, patch, or reject), its colours are packed
    into RGBA words, patches are written into the stored texels, and the bytes
    handed to the GPU are swizzled with `swizzle_3ds`.
  - `texmap.rs`: the textures stored under egui's texture ids; an update
    changes only its own entry, and freed ids are removed.
  - `image.rs`, `texture.rs`, `lib.rs`: the plain-value model of egui's image
    updates, textures and their texels.
- `app/` is the part that drives the 3DS hardware through `ctru` and
  `citro3d` (render targets, drawing, texture upload, the keyboard applet).
- `tests/` exercises the library.
