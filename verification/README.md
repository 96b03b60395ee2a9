# steel_core

Verified rules of the chest minecart and of the lodestone compass of a Minecraft
server.

- `src/` holds the rules, proved with Verus: hits, drops, saving and loading,
  pushes and dismounting of the cart (`chest_minecart`, `save_format`,
  `container`), binding and losing a lodestone (`compass`), and what holds of
  them over several calls (`minecart_laws`, `compass_laws`).
- `app/` connects them to a server: it answers what the rules ask, does what they
  say, and computes what takes floating-point arithmetic.
- `tests/` runs the rules on examples.

Floating-point values pass through the rules as bit patterns (`float_bits`), and
are only ever compared there.
