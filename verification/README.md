# imgui-winit-support

A winit backend for imgui-rs whose input decisions are verified with Verus.

- `src/` is the verified library: key, mouse-button and cursor mappings between
  winit and Dear ImGui, the translation of discrete window events into ImGui input
  events, the DPI-mode decisions, and the render-time cursor cache.
- `app/` holds `WinitPlatform` and `HiDpiMode`: it reads winit values, hands them to
  the library, applies the results to the ImGui `Io` and the winit `Window`, and
  does the floating-point DPI arithmetic.
- `tests/` exercises the library on concrete inputs.
