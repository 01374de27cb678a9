# image_example

A small Vulkan program that shows a PNG texture on a quad. The decisions it
makes are a verified library (`src/`); the program around them (`app/`) talks
to the GPU through vulkano and to the window system through winit.

- `src/device.rs`: which physical device and queue family to render with.
- `src/swapchain.rs`: image count, composite alpha and viewport extent of the swapchain.
- `src/texture.rs`: decoding the texture from PNG bytes with the `png` crate.
- `src/frame.rs`: what the frame loop does on each window event and on the
  outcome of acquiring and presenting an image, with laws over event sequences.
- `app/`: the program itself and its rust-gpu shaders.
