# hallways

Hallways is a browser for 3D levels: a level is a JSON manifest on the web
that names a model, its materials and textures, an optional music track, and
portals that lead to other levels by URL.

This crate is the verified core of Hallways, written in Verus. Every function
in `src/` carries a contract that Verus proves:

- `manifest`, `keyed`, `assets`, `fetch`, `weburl`: the level manifest, its
  validation, the assets it refers to, and how each href is resolved and
  fetched.
- `material`, `mesh`, `trimesh`, `portal`: which texture layer each frame
  goes to, the material index, collision triangles, and where portals lead.
- `cache`, `log`, `error`: the level cache's bookkeeping, the message log,
  and the text of every load error.
- `menu`, `menu_home`, `menu_visit`, `menu_settings`, `intro`, `banner`,
  `text`, `input`, `config`: the menus and the keys that drive them.
- `player`: what the player asks for with the keys, and the posture that
  follows (including floating, entered by pressing jump twice).

`app/` is a command-line program around the library: it fetches a level
manifest and its assets, loads them through the level cache, and reports what
it found. The floating-point geometry of portals and of the player's movement
lives there too. `tests/` exercises the library on concrete values.
