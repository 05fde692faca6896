# Pilot Garden — game rules

A 3D minigame in which the player digs, mines and plants in a garden,
dodges gnomes and killer arms, and escapes from the studio below.

`src/` is the verified library: the decisions the game takes, each with a
contract proved by Verus, and the laws that hold across them.

- `digging` — collectibles, their poses and sounds, life of minable things.
- `point_raycast` — the held item, the crosshair ray and what a click does.
- `gnomes` — the gnomes' state machine and their behaviour on each frame.
- `killer_arms` — searching a loaded scene by name, the laser beams, hint dots.
- `scene_tags` — roles that scene entities take from their names, bump sounds.
- `world_timer`, `dodgy` — the night alarm, new days, elements that hide
  while looked at, bananas from a depleted bananite.
- `surveillance`, `menu`, `input_mapping`, `audio` — lights, screens, menus,
  controls and sound cues.
- `text` — prefix and equality tests on names.

`app/` is the Bevy program around it: scenes, rendering, physics and
animation (which work in floating point), and the ECS systems that read
the world, call the library and apply its answers.
