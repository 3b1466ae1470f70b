# game_sync

A lockstep game must end every tick in the same state on every platform. The
simulation itself (Euler integration, the lattice snap `round(v / ε) * ε`) is
binary64 arithmetic and lives in `app/`, which runs the float-mode and
snap-mode comparison.

`src/` holds what is decided on bit patterns and is verified with Verus:

- `float_bits`: the sign, exponent and fraction fields of a binary64 pattern,
  and the rule that a lattice spacing must be positive and finite
  (`is_valid_tolerance`), proved equal to a range test on the pattern.
- `world`: bit-for-bit comparison of entity states, of two worlds
  (`worlds_identical`) and of all platforms at once (`platforms_in_sync`),
  with the reflexivity, symmetry and transitivity of that comparison.
