# galangua

A Galaga-like shooting game whose game logic is written in Verus and proved against its
contracts.

## Layout

- `src/` — the verified library.
  - `types`, `math`, `pad`, `collision`: vectors, fixed-point angles and velocities, the
    game pad with its triggers, hit boxes.
  - `formation`, `traj`, `appearance_manager`, `attack_manager`: the enemy formation and
    its breathing, flight paths, the order in which enemies enter a stage, and the choice
    of attackers.
  - `enemy_base`, `zako`, `owl`, `tractor_beam`, `enemy`, `enemy_manager`: the enemies,
    the bosses with their escorts and their capture of the player's ship, and the table
    of enemies by formation slot, with the enemy shots.
  - `player`, `myshot`, `recaptured_fighter`: the player's ship, its shots, and a rescued
    fighter.
  - `game_manager`, `game_info`, `galangua_app`: the steps of play, the events that the
    actors raise, scores and extra ships, and the application's title and game screens.
  - `ecs`, `ecs_world`, `ecs_player`, `ecs_owl`, `ecs_effect`, `ecs_system`: the same
    game as entities with components in a world: the per-entity steps of the ship, its
    shots, the small enemies, the bosses with their beams and escorts, and the effects, and
    the world-wide systems that move the small enemies, the shots and the escorts, fire the
    shots, run the rescued fighters and check the shots' hits. The rest of the scheduling
    of this version is not part of the library, and the program runs the object-oriented
    version.
  - `scene`: the sprites that a game shows, in the order they are drawn; each actor also
    lists its own sprites, and `framework::draw_sprites` hands a list to a renderer.
  - `traj_file`: which commands the lines of a path file make, and when a file is refused.
  - `laws`: properties of the library as a whole.
  - `rng`: the random number generator, from the `rand` and `rand_xoshiro` crates.
- `tests/` — tests of the library.
- `app/` — handing the game's sprites and texts to a renderer, playing the sounds that the
  game asks for, and reading path files (and their decimal numbers) for the trajectory
  editor.
