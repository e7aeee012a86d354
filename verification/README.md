# gameplay_sandbox

The rules of a small top-down shooter, written in Verus and proved against their
contracts, with the bevy game around them in `app/`.

`src/` holds what the game decides, on integers, booleans and nanosecond clocks:

- `timer`: non-repeating countdown timers; an unfinished timer is ticked by bevy's
  `Timer`.
- `player`: health, the invincibility window, the weapon cooldown, the shot squash
  clock, and the directions read from held keys.
- `combat`: which bullet kills which enemy, score per kill, the player's contact damage
  round, bullet lifetimes.
- `effects`: the pause between death and Game Over, and the order of burst fragments.
- `game_state`: the two game phases, the score and what a restart resets.
- `random`: the seeded random source and integer jitter sampling.
- `ui`: the HUD labels, the overlay rule and the restart button.

`app/` holds the bevy program: rendering, input, vector physics, particles and every
other computation on floating-point numbers, which Verus does not take.
