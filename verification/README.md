# pong

A Pong game for two paddles: the player on the left (W/S keys) and a
computer opponent on the right, first to eleven points.

- `src/` is the verified library: the match's screens and scoring
  (`game`), paddle steering (`paddle`), serves (`serve`), wall contact and
  gradient lookup (`ball`), menu texts and background stars (`ui`), and text
  helpers (`text`).
- `app/` is the macroquad program around it: window, frame loop, input,
  sound, drawing and the floating-point positions of the ball, paddles and
  stars.
- `tests/` exercises the library on concrete matches.
