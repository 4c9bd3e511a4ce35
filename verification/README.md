# hallways

The logic of the Hallways game, verified with Verus: level manifests and how
their assets are named and fetched, texture bucket planning and the material
index, load error reports, the menus and load screen as state machines, the
discrete decisions of the player's movement, and the speaker's playback state.

- `src/` is the verified library. Calls into `url`, `image` and std that the
  logic needs go through small trusted wrappers whose contracts are stated in
  their doc comments.
- `tests/` runs the library on concrete values.
- `app/` is the unverified front end: HTTP and file fetching, JSON decoding,
  GLTF mesh decoding and the floating-point geometry of portals and movement.
