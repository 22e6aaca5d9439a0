# bevy_support_misc

Helpers for small Bevy games: save slots sealed with a password, randomly timed mini
events, scale and translation easing, button effects, number fields, routes to travel and
fades.

- `src/` is the library, written in Verus: the plugins' decisions are functions here with
  contracts, all but those that read a float (whether a fade is done by its alpha, and the
  steps along a route), and the laws that tie the functions together are proof functions
  beside them. Vectors, colors and easing functions are type parameters: the library
  carries them and leaves the float arithmetic to the game.
- `app/` holds the Bevy side: plugins, components, messages and systems, the file work of
  saves and settings, asset loaders, and the float arithmetic (easing curves, alpha, moving
  along a route, lighter colors).
- `tests/` runs the library on concrete values.
