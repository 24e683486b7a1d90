# dwm_lut

The decision logic of a hook that applies 3D LUTs to the Windows desktop
from inside DWM, written in Verus and verified.

`src/` holds the verified library:

- `config`, `text`, `cube`: LUT manifests and `.cube` files (adapter LUID
  text, manifest validation, line-by-line `.cube` structure checks);
- `versioned_profile`, `profile`, `resolver`: choosing the hook profile for a
  dwmcore.dll build, locating and validating hook targets, PE header reading;
- `present_input`, `flip_gate`, `lut_bypass`: reading a present's inputs from
  DWM's objects, refusing direct and independent flips for monitors with a
  LUT, and the dwmcore globals patched for that (`bypass_sync` brings them
  in line after each present, one memory action at a time);
- `lut_pipeline`, `render_plan`: which LUT draws a present, the draw plan,
  per-render-target redraw state and the present region;
- `lifecycle`, `minhook_plan`, `status`, `log_limiter`: the hook's lifecycle
  and exported status, hook registration and teardown as step machines, the
  status codes, and sampled diagnostics.

`app/` is the unverified layer around it: serde reading of manifests, `f32`
value parsing of `.cube` files and the colour math, Win32 memory queries and
accesses, and the state shared between DWM's threads.

`tests/` exercises the library on concrete values.
