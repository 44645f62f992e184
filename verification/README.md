# sprite_game

A small 2D game: a player sprite steered with the arrow keys among a
thousand drifting enemies, drawn with OpenGL through a sprite batcher.

- `src/` is the verified library: vertices and quads (`vertex`, `quad`),
  the sprite batcher that groups quads by texture (`sprite_batch`), the
  entity world on `hashbrown` maps (`world`, `component_map`), the keyboard
  controls (`controls`), PNG decoding for textures (`texture_region`) and
  the log buffer of the shader wrappers (`render_gl`). Scalars are a type parameter; the game uses `f32`.
- `app/` is the program: SDL window and events, OpenGL calls, file reading,
  and the floating-point arithmetic on coordinates.
- `tests/` runs the library on concrete values.
