# asdf_overlay

The control logic of an in-game overlay for Windows, verified with Verus: what goes over the pipe
between the overlay and its clients, what a client can ask of a window, and what the injector, the
hooks and the renderers decide.

- `src/` is the library. Nothing in it touches the system. Where outside work and decisions take
  turns, a value says what to do next and is told what came of it: an `Injection`, a `Session`, a
  `TextureUpdate`.
  - `event`, `primitive`, `wire`, `codec`: events and their packets
  - `request`, `render`, `backend`, `server`, `input`: the windows and the clients that use them
  - `injector`, `client`, `helper`, `signature`, `pipe`: getting the overlay into a process
  - `vulkan`, `dx12`, `dx11`, `dx9`, `dxgi`, `renderers`, `hooks`, `util`: drawing
  - `js`, `conv`, `addon`, `surface`, `process`, `augment`: what a script sees
- `tests/` runs it.
- `app/` does the outside work: the injector helper, the pipe, the script addon and the devices.

Floating-point numbers are held as their bits, handles and device objects as integers.
