# kerkenez

A small OpenGL renderer. `src/` is the verified core: keyboard
state, material ids and the deduplicating texture catalog, decoding
of image files into bottom-row-first RGBA pixels (through the `image`
crate), batching of
draw commands, index buffers of the built-in meshes, shader variant
selection and shader source assembly, bind elision, and the
application's event and queue handling. `app/` holds the window,
OpenGL and floating-point code (cameras, frustum culling, vertex data,
colors, lights) that drives it. Shader sources are read at run time
from a `shaders/` directory.
