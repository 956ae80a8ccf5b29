# barbarosa

A library for NxNxN twisty puzzles, written in Verus: the spatial primitives (axes,
directions, faces), the pieces (corners, edges, wings and the center pieces of big cubes),
the moves (face turns, wide moves, rotations, slice moves, quarter turns), a parser and
printer for standard notation, the 2x2x2 to 7x7x7 cubes, the simplification of algorithms,
the indexing of 3x3x3 arrangements used by pattern databases, the manhattan distance of
the pieces to their places, and the cross pieces of CFOP (finding and counting them; no
search for a solution).

The functions of the library state what they compute in contracts that Verus proves
(where a result depends on a random generator, what holds of every outcome), and the
properties that relate several of them (moves can be undone, indices are unique
and below the table sizes, face turns keep an even number of edges flipped, the text of a
face turn, and of a wide move of depth at most 1, reads back as the move, ...) are stated and proved as lemmas.

Layout:

- `src/` the verified library (`space`, `pieces`, `moves`, `parser`, `notation`,
  `orientable`, `visualization`, `equivalence`, `cube2` to `cube7`, with the 3x3x3 index,
  cache lookup, edge parity, manhattan distance and cross in `cube3`).
- `tests/` tests of the library on concrete values.
- `app/` what stays outside the verifier: reading and writing the pattern databases on
  disk, drawing cubes in a terminal, floating point heuristics, random values, and error
  types implementing `std::error::Error`.
