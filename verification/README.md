# battle_core

The rules of a small active-time-battle role-playing game, with proved
contracts, and the Bevy program that plays them.

- `src/` is the library: combatants and their stats (`stats`), damage,
  turns and the end of a battle (`combat`), the spell, enemy and hero
  libraries (`spells`, `battle_system`), the keyboard as plain values
  (`input`), the command and spell menus (`menu`), the party (`party`),
  experience and levels (`rewards`), the texts the battle shows (`text`),
  and the laws that hold across them (`laws`).
- `app/` is the game: Bevy systems that read the world into the library's
  values, let the library decide, and draw the result. What runs on
  floating point (the active-time gauges, fades, the danger meter of
  random encounters and the random spread of damage) lives there.
- `tests/` runs the library on concrete values.
