# cat_launcher

The core of a launcher for the Cataclysm family of games (Dark Days Ahead,
Bright Nights, The Last Generation), verified with Verus.

- `src/` is the verified library: platform detection, GitHub `Link` header
  paging and API addresses, the ordering of release assets, archive format
  detection, installation progress reports, and the decisions of installing a
  release, preparing a launch, pruning automatic backups, creating, deleting
  and restoring manual backups, master reset and self-update. Each multi-step
  operation is a step function from a state and the outcome of the last
  action to the next state and action; public proof functions named `law_*`
  state what holds across those steps.
- `app/` carries out the actions: files and archives, HTTP, the SQLite
  repositories and the process of the game. It is not verified.
- `tests/` runs the library on concrete values.
