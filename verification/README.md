# tank

The Matrix digital rain as a native window and a screen saver, rendered with
wgpu. The decisions behind the renderer live in a library verified with
Verus; the GPU, window-system and storage code around it is ordinary Rust.

## Layout

- `src/` — the verified library.
  - `config` — the preset table (every look, its font and palette, version
    aliases), the cell grid size and density. Decimal quantities are exact
    thousandths.
  - `text`, `shader` — string replacement and the per-stage rewriting of the
    rain shader's bindings.
  - `rain`, `bloom`, `palette`, `pipeline` — buffer sizes, dispatch counts,
    the bloom pyramid, the layout of the 512-slot palette gradient, the
    effect stage and the ring of mirror touches.
  - `viewer` — what each key does in the desktop viewer and how the
    configuration changes.
  - `texture` — PNG files decoded (by the `image` crate) to RGBA pixels
    checked to fill their image.
  - `settings`, `command`, `window`, `dialog` — the screen saver: its
    settings and their UTF-16/DWORD storage form, the command line, how the
    saver window and the settings dialog answer their messages.
- `tests/` — tests of the library on concrete values.
- `app/` — the program: wgpu passes, texture and shader loading, the winit
  event loop, the Windows `.scr` host and the macOS saver interface. Floating
  point (colour conversion, uniforms, cameras) happens here.

The renderer reads its shaders from `matrix/shaders/wgsl/` and its images
from `matrix/assets/`, relative to the working directory.

## Keys

`0`–`9` switch versions, `~` skips the intro, `R` reloads the default
version, `E` cycles the visual effects, `D`/`F3` toggle the debug view,
`Escape`/`Q` quit.
