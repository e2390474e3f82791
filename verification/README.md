# airs-window

Window and wgpu context layer: an event loop that creates one window with a
GPU surface, paces its frames and hands window events to a user handler.

- `src/` is the verified library (Verus): the decisions of the event loop
  (`window_loop`), frame pacing on a fixed grid of intervals (`pacing`), the
  per-window state, surface size, frame and event handling (`wgpu_window`) and
  the error type (`error`), with their contracts and laws.
- `app/` drives the windowing system (winit) and the GPU (wgpu): it creates
  the event loop, the window and the GPU objects, and asks the library what
  to do at each step. It also holds the handler trait that users implement.
- `tests/` exercises the library.
