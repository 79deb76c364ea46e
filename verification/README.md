# brawler

The rules of a small top-down brawler, verified with Verus.

`src/` holds the discrete logic: weapons and their sprite-sheet clips
(`player`), the player's and the enemies' state machines (`player`, `npc`),
weapons on the ground (`objects`), tile maps (`tile_map`), locations
(`world`), the menus (`session`), their text (`ui`), the font choice
(`assets`) and the control mode (`control`). Everything measured in floating
point — positions, timers, angles, colliders — stays with the caller, which
hands the library the outcome of those measurements as plain values.

`app/` is the macroquad program around it: the window, the frame loop,
input, movement and drawing.
