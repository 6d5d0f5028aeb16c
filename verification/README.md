# framewise

The logic of FrameWise, a lightweight performance toolkit for Windows 10 and 11
(a live FPS / system-stats overlay and a read-only optimization audit), written
in Verus: the toolkit's logic is stated as contracts and proved, and what
cannot be (system calls, threads, floating point) is kept apart in `app/`.

- `src/` — the verified library: configuration and its safe ranges, the hotkey
  parser, the frame-time buffer (FPS window, 1% low), the PresentMon CSV reader
  and the choice of its executable, the audit's detectors and report, the overlay's rows (the memory
  figures included), placement and colours,
  Windows version gating, the tray icon's image, event dispatch and log time
  stamps.
- `tests/` — tests of the library on concrete values.
- `app/` — the Windows program around it: registry and process sampling, the
  Win32 overlay window, the tray icon, hotkey registration, PresentMon as a
  child process, threads and file I/O. Its floating-point code is not
  verified: the FPS mean and its reciprocals, the formatting of FPS, frame
  time and CPU/GPU percentages, the DPI scaling of the overlay, the window
  alpha, and the maximum over the GPU engine counters.

Floating-point settings and samples (opacity, frame times, CPU shares) cross
into the library as their IEEE-754 bit patterns, so the clamping, filtering,
ordering and percentile selection done on them are exact.
