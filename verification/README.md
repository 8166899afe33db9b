# openstrike

The verified core of the OpenStrike handheld runtime, written in Verus.

`src/` holds the logic that every host shares, each function with a contract
that Verus proves:

- `format`, `character`: the OPCH baked-character format (validation, the
  accessors of a validated asset, the morph cache and the GE texture
  swizzle);
- `viewmodel`: the OPVM first-person and projectile meshes;
- `weapon_model`: the PWM cooked weapon models;
- `mods`: mod packs, whose ID and resources are validated before a pack
  exists, and the catalogue's limits on count, IDs and payload;
- `clock`, `frame_times`: the fixed-step clock and the frame-time window;
- `weapon`, `bot`: the firearm catalogue and its whole-number tuning, the
  rounds of a magazine and its reserve, the deterministic random sequence,
  and an opponent's health, armor and purchases;
- `projectile`: the bounded pool of shots in flight;
- `touch`: touch buttons, held levels and once-delivered edges, for the
  touch-only host and for the lower screen beside a physical pad;
- `map_source`, `map_read`: sources of map bytes with the log of the calls
  made of them, and bounded reads of map files stated over that log;
- `cooked_map`, `draw_runs`: draw batches of a cooked map expanded for the
  desktop renderer, and the merging of visible face runs into draw calls;
- `radar`: padding of the radar snapshot into its texture;
- `bytes`: little-endian fields.

Coordinates and durations inside the binary formats are IEEE-754 singles;
the library carries them as bit patterns and checks them with integer rules.
`app/` turns them into floats, holds the float presentation math (poses,
weapon timing tables, lighting patches, summaries) and the file access.
