# ysera_rhi

The rendering hardware interface of the Ysera engine: the decisions a Vulkan
renderer makes while it sets up and drives the GPU, written as verified Rust.

- `src/` is the verified library. It holds the renderer's own data types
  (formats, flags, descriptors, requirements), the conversions between them
  and Vulkan's numbering, and the plans the renderer derives before it calls
  the driver: which layers and extensions an instance and a device get, which
  physical device and queue families are chosen, how a swapchain, a render
  pass, a pipeline, images and views are made, and how a frame moves through
  acquire, submit and present. Each public function states its result in its
  contract; laws that relate several functions are public proof functions.
- `app/` holds the driver side of a few of these decisions, through `ash`:
  it asks the driver for what a decision needs (queue families, surface
  support, features, sample counts, format properties, extensions, layers),
  hands the answers to the library, and turns its answers back into `ash`
  values; it also creates image views through the view cache, runs the
  acquire and present steps of a frame, and logs. Creating the instance,
  the device, the swapchain, render passes and pipelines from the library's
  plans is left to the code that uses this crate.
- `tests/` runs the library on concrete values.
