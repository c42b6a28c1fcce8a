# spectator_cam

A spectator camera for Elden Ring multiplayer sessions: the host turns into
an unloaded ghost and the camera spectates a player, looks down on the area
or follows the group, switching modes by pad buttons or on a timer.

- `src/` is the camera's decision logic, verified with Verus: input handling
  (`input`), the per-frame start checks and mode dispatch (`frame`), the modes
  and the automatic transition (`modes`), fade, HUD and code patches
  (`settings`), the notices and their UTF-16 encoding (`messages`), settings
  file switches (`config`), the state and its invariant (`state`), and
  properties that span several operations (`laws`).
- `app/` is the DLL that hooks the game: memory access, calls into the game,
  and the floating-point camera geometry. It asks `src/` what to do.
- `tests/` runs the library on concrete inputs.
