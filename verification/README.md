# pong_settings

Graphics options for a small Bevy game, with their rules proved in Verus.

`src/` is the verified library:

- `text` — trimming, ASCII lowercasing, splitting and decimal numbers over
  character sequences, with the specifications they meet.
- `settings` — renderer backends, resolutions, the graphics settings, the
  `KEY=VALUE` configuration text they are saved as and read from, and the proof
  that reading saved settings gives them back.
- `options_popup` — the in-game options popup as a state machine: open, edit a
  draft, save it (OK) or drop it (Cancel).
- `options_dialog` — the stand-alone options dialog that applies settings by
  restarting.
- `pong` — the score, the paddle direction and the game's text lines.
- `fps_overlay` — the frame-rate / VSync overlay.

`app/` holds the programs themselves (windows, entities, drawing, files and
processes): `pong` (default), `options` and `fps`, chosen by the first
command-line argument.
