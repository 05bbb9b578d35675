# project_peril

A small Vulkan game engine whose decision logic is verified with Verus.

- `src/` is the verified library: the configuration record and packed version,
  keyboard/mouse input (action bit sets and their routing to consumers), game
  objects and their components, the engine state and fixed-timestep clock, the
  action handling of the camera and the car, NURBS knot vectors, mesh indices, and
  the integer choices of the renderer (memory types, device, swapchain, surface
  format, buffer uploads, texture layout transitions). Bit sets come from the
  `bit-vec` crate, reached through a few trusted wrappers in `src/bits.rs`.
- `app/` is the program around it: window and events (winit), Vulkan (ash),
  matrices and transforms (cgmath), image loading (image), and the options file
  (serde_json). It hands the library plain values and acts on what comes back.
- `tests/` runs the library on concrete values.
