# curling_game

The rules and decisions of a curling game, verified with Verus, and a
headless program that plays a match with them.

- `src/` is the verified library: turn order, the hog line and Free Guard
  Zone rules, scoring an end, moving from shot to shot and end to end, the
  computer player's shot choice, the player roster, camera views, the texts
  the game shows, the controls, and the online protocol (who sends what,
  what each side applies, the room-code entry).  Positions and distances
  are `f32` values carried by their bits (`scalar::Scalar`); comparisons on
  them follow IEEE-754 exactly.
- `tests/` runs the library on concrete games.
- `app/` is the program: stone physics and aiming (floating-point work),
  random draws for the players, wire encoding of the online messages, and a
  terminal driver that plays two computer teams against each other.
