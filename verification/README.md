# bary

The core logic of a space factory game, written in Verus: the functions in
`src/` carry contracts that Verus proves, except the small trusted wrappers
around outside calls, whose contracts are believed as their documentation
states them.

- `src/` is the verified library: grid coordinates and rotations, part
  layers and placed parts, pipes, inventories with exact unit, volume and
  mass bookkeeping, entity tables, terrain tiles, timers, the console (its
  commands, their handlers and the prompt), the terminal's world-changing
  commands, the ship editor, the client's viewport, the cursor over the
  interface, world downloads, and both sides of the client-server
  conversation: the client's handling of each server message (the
  handshake, downloads, chat lines, being kicked) and of its terminal's
  commands, and the server's routing and dispatch of client messages.
- `tests/` runs the library on concrete values.
- `app/` holds what stays outside the proofs: floating-point geometry,
  named colors, text reports with rates and percentages, the console
  handlers that read floating-point coordinates, and a task runner that
  sleeps.

Floating-point positions appear in the library only as type parameters
(the editor's camera offsets, the viewport's waypoint, screen positions):
the library never computes with them. Outside calls (random numbers,
clocks, shell-style word splitting, string and map operations that the
standard specifications leave open) go through small trusted wrappers
whose contracts state what their documentation promises.
