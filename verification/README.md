# rt

A CPU ray tracer (spheres, cubes, planes, capped cylinders, a ray-marched
fluid surface, particle dust; shadows, reflection, refraction, textures;
ASCII P3 `.ppm` output; an optional interactive front-end).

The library under `src/` is verified with Verus. It holds the parts of the
program that do not compute in floating point:

- `ppm` — the P3 text of an 8-bit image (decimal digits, header, one line
  per pixel), with proofs that the text is ASCII, reads back digit for digit
  and has one line per pixel after the header;
- `presets` — what each built-in scene contains: objects and their order,
  which bonus touches which material, camera framing, recursion limit, the
  settings a preset renders with, and the auditor render list;
- `render` — the recursion of the shader (which secondary rays are traced,
  with what depth left), with a proof that ray chains stop at the limit;
- `texture` — the checker cell parity and clamped texel fetches from a
  decoded RGB image (decoding goes through the `image` crate);
- `preview` — when the interactive front-end starts a debounced preview
  render, at which size, and the one-render-at-a-time rule.

`app/` is the program around it: geometry, shading and colour arithmetic
(floating point), the command line, file output, the parallel render loop
and the GUI.
