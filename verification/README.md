# picasso_example

Verified core of the Picasso example Blueprint for TRUEOS.

- `src/` — the library, verified with Verus: resource-relative geometry and
  transform ranges (`resources`, `geometry`), mixed triangle/line draw plans
  (`draws`), little-endian stream encoding (`bytes`), the resize-grip
  interaction and frame clock (`interaction`, `probe`), head behaviours
  (`heads`), shared-ring sizing and cache visibility (`ring`), exact uploads
  (`upload`) and the hardware-video view (`video`).
- `app/` — the TRUEOS program: UI4 frame, vGPU buffers and submissions, video
  streams, and the floating-point camera and transform math, driven by the
  library's decisions.
- `tests/` — tests of the library on concrete values.
