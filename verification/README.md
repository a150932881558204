# wgpu-3dgs-viewer, verified decision logic

A 3D Gaussian splatting viewer built on wgpu. The library under `src/` holds the
decisions the viewer makes, with contracts proved by Verus:

- `multi_model`: the models of a multi-model viewer by key; inserting, removing,
  in-place access, and the all-or-nothing choice of the models a frame renders.
- `selection::viewport_selector`: the rectangle and brush selection state machine
  and the values its position buffers receive.
- `buffer::crop_bounds`: the crop-bounds uniform's fields.
- `error`: access errors and the device storage-size check.
- `preprocessor`: the dispatches of a preprocess pass.

`app/` holds the GPU side (buffers, pipelines, render and compute passes), which
calls the library for each of those decisions. `tests/` exercises the library.
