# compute_renderer

The integer and decision logic of a real-time 3D renderer that draws either
through the graphics API's raster pipeline or through a software rasterizer
made of compute shaders, proved with Verus.

`src/` is the verified library:

- `sizing` — ceiling division, integer ceiling square root, near-square
  workgroup grids.
- `custom_pipeline` — workgroup counts (`util::dispatch_size`), per-frame tile
  and pixel dispatch (`renderer`), buffer sizes and geometry gathering
  (`gpu_buffers`) of the tiled renderer.
- `gpu` — the binned pipeline's dispatch (`util`, `binning_pass`), merged index
  buffers and packed texel buffers (`gpu_buffers`).
- `model` — shifting each mesh's indices past the vertices of the meshes
  before it, with the proof that valid indices stay valid.
- `camera`, `effect`, `window`, `scene` — command-line choices, effect
  numbering, scene order, key and mouse state, camera selection, scene names.
- `performance` — the settle/measure/finish schedule of a benchmark run and
  the averaging of memory samples.

`app/` is the windowed program around it: the event loop, the GPU passes,
model loading, the floating-point camera and effects, and system sampling.
`tests/` runs the library on concrete values.
