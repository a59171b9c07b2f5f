# pingpong

A verified library for a two-player ping-pong game played over the network,
with the programs around it.

- `src/` holds the rules, each with its contract and its proof:
  - `racket`: remote commands and the racket movement they ask for;
  - `ball`: the ball's direction, serves and bounces;
  - `score`: the scoreboard;
  - `rally`: the discrete state of a game in progress and the decisions of a frame;
  - `score_text`: the score line shown on screen;
  - `input`: terminal input to commands, and commands to wire bytes;
  - `receive`: received bytes to text.
- `app/` holds the game window (ggez), the terminal controllers (crossterm),
  the network connections (tokio) and the `main` that picks a role.
  Screen geometry is in floating point and stays there.
- `tests/` exercises the library on concrete values.
