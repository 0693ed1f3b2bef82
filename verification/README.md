# nine_grid_slicer

A desktop tool that cuts the four corners out of PNG images along four guide
lines, stitches them into a smaller image ("nine-grid" slicing), optionally
rescales it, and writes it back next to the original or over it.

- `src/` is the verified library:
  - `raster` — the RGBA bitmap, its mathematical view, cropping;
  - `slicer` — corner extraction, stitching, rescaling, and the laws that
    describe the sliced image;
  - `item` — one image with its cut parameters and their validation;
  - `state` — the image list, the selection and the export status;
  - `exporter` — the name of an exported file;
  - `loader` — the checks an image passes when it is opened;
  - `paths` — the parts of `std::path` and `str` the library relies on.
- `app/` is the egui/eframe window, file dialogs, reading and writing files,
  the export thread, and the floating-point arithmetic of the scale and
  proportion settings.
- `tests/` exercises the library on concrete images and states.
