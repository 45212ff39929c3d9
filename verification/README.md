# pathfinder_gl

The OpenGL device of the Pathfinder renderer, as a verified command planner.

Each device operation decides which OpenGL calls to make, in which order and
with which arguments. `src/` makes those decisions and proves them: an
operation appends `GlCommand` values to a list, and its contract states the
exact list. `app/` owns the OpenGL context: it asks OpenGL for object names
and statuses, hands them to the planner, and performs the planned commands.

- `src/glenum.rs` – the OpenGL enumerants in use.
- `src/types.rs` – sizes, rectangles, formats and render options.
- `src/convert.rs` – Pathfinder enums to OpenGL enumerants.
- `src/command.rs` – the planned OpenGL calls.
- `src/device.rs` – the device, its GPU objects, binding and releasing them.
- `src/render.rs` – render options, clears, render state and draw calls.
- `src/resources.rs` – textures, framebuffers, buffers, shaders, programs,
  vertex attributes, uniforms, timer queries and pixel read-back.
- `src/template.rs` – expansion of `{{version}}` in shader templates.
- `src/pixels.rs` – the vertical flip of read-back pixels.
- `src/error.rs` – classification of `glGetError` codes.
- `src/state.rs` – a model of the OpenGL state the commands change, and
  what draws and render options leave behind in it.
