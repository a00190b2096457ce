# legend_shot

The verified core of Legend Shot, a resident screenshot tool: capture by global shortcut
or tray menu, select and annotate a region, copy, save or pin it, and recognize its text.

`src/` is a Verus library. Its functions are proved against their contracts, except the
trusted wrapper `parse_hotkey` around global-hotkey's parser, marked `external_body`, with
the declaration of global-hotkey's `HotKey` type and `parsed_hotkey`, the name of what the
parser returns.

- `app_state`: the capture lifecycle, the frame-delayed reveal and save dialog, toolbar tools.
- `display`: tiling a display into textures (laws: the tiles cover the image, stay inside it,
  and do not overlap).
- `pixels`: RGBA buffers; the bounds of the visible pixels, and the block-average mosaic.
- `history`: bounded undo and redo of edits (laws: undo then redo, redo then undo).
- `hotkey`: capture shortcut parsing, the steps of switching the registered shortcut (the
  new key registered before the old one is released), and which hotkey events ask for a
  capture.
- `keyboard`, `pointer`, `selection`: what keys, presses and releases do in the capture
  window, and the resize handles.
- `ocr`, `ocr_flow`, `ocr_view`, `ocr_worker`, `ocr_text`: the recognition session (only the
  latest request counts; a request times out after fifteen seconds), the result window's
  flow, its view model, the steps of the worker that loads the model once, and the text of
  the regions.
- `pin`: pinned screenshots, their identifiers, and saving one after the windows are hidden.
- `settings`: the shortcut settings window and its keycaps.
- `region`, `text`, `tray`, `window`: the test-mode region, Unicode trimming, the tray menu,
  and the platform rules of the capture windows.

`tests/` runs the library on concrete values. `app/` is the command line around it: the
test mode (capture, crop, copy or save) and the settings file. It also holds the glue that
performs the calls the library's steps ask for, to the operating system's hotkey registry
and to the OCR model; the capture window and the tray that would drive that glue are not
part of this build, so `main` does not reach it yet.
