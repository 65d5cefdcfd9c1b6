# Termhold

A command-line colony management game: gather wood, stone and food, build
huts, barns, farms, lumber yards and quarries, put settlers to work, and keep
the colony alive for 365 days.

The game's rules are a library verified with Verus: every public function
states what it returns or changes, and the properties that hold across calls
(crews never exceed the population after a day, a finished game stays
finished, the log stays capped, …) are proved as lemmas.

## Layout

- `src/game/` — the simulation: colony, buildings and crews, balance,
  player actions, the daily tick, one turn of play (which inputs cost a
  day), events, and range checks for callers.
- `src/classic.rs` — the earlier rule set with building counters and a
  180-day season.
- `src/ui/` — command parsing, the hints beside each command, and the
  screens (colony, help, welcome) as lines of text.
- `src/text.rs` — text helpers: decimal formatting, words, trimming,
  number parsing.
- `app/` — the terminal front end: reads lines, prints screens, runs the
  game loop.
- `tests/` — tests on concrete values.
