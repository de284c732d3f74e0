# wado_compositor

The decision-making core of wado's headless Wayland compositor, which renders a desktop
session off-screen and streams it as H.264 to a remote viewer. Everything here is verified
with Verus: each public function states what it returns or changes, and the laws the
compositor relies on are proved as public proof functions next to the code they speak of.

## Layout

- `src/` — the verified library, one module per concern:
  - streaming: `congestion` (frame-rate shedding), `viewer` (per-viewer render state),
    `pacing` (render-timer deadlines and pacing summaries), `sink` (the drop-on-full frame
    channel), `stall_watchdog`, `packets` (frame stamping and access units), `select`
    (encoder tiers and fallbacks), `encoder_params`, `bitrate`, `conf`, `session` (the
    session's lifecycle and each render tick's bookkeeping), `dmabuf_layout` (the plane and
    object checks of a DRM-PRIME import);
  - pixels: `colour` (RGBA to NV12 / I420), `capture` (row order of read-backs);
  - windows: `geometry`, `fit`, `placement`, `fullscreen`, `glow`, `content_type`,
    `text_input`;
  - the session's applications: `control` (which requests need a session, launch plans),
    `launch` (the input-method flag), `proc` (CPU weight), `session_env`, `xwayland`,
    `render_node`, `gamepad` (uinput device bytes);
  - plumbing: `error`, `clock`, `text`, `virtual_input`.
- `tests/` — tests of the library on concrete values.
- `app/` — ordinary Rust around the library: spawning and stopping processes, the uinput
  device, the private D-Bus daemon and Xwayland, logging, and the floating-point geometry of
  pointer input.
