# miniquad_egl

Verified decision logic for EGL contexts: a desktop OpenGL ES 2 context for a
window, a headless desktop OpenGL context on a pbuffer (on an EGL device or Mesa's
surfaceless platform), and an OpenGL ES 3 pbuffer context through ANGLE's
Direct3D 11 backend, with the event loop of a windowless renderer.

The EGL library is loaded and called by the host. Each setup is a state machine
in `src/`: it names the next EGL call, the host makes it and hands back the reply,
and the machine decides what follows, down to the release calls made when a
setup gives up. The machines, the attribute lists, the config tests, the
extension-list search and the error texts are proved in Verus.

- `src/` the verified library (`command`: calls, replies, teardowns; `attrib`,
  `config`, `text`: attribute lists, config tests, word search, number parsing and
  formatting; `window`, `headless`, `angle`: the setups; `event_loop`: quitting,
  requests, the frame loop, the check of the required GL entry points).
- `app/` the host: EGL entry points, the call executor, DLL loading on Windows,
  and the ANGLE renderer's `run`.
- `tests/` tests of the library on concrete replies.
