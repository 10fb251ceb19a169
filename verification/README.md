# aup

A terminal audio player. The logic is a library verified with Verus; the threads,
the terminal, the sound and the files are around it in `app/`.

- `src/playback.rs`: which song plays, and what the player is told to do
- `src/songs.rs`, `src/directory.rs`, `src/root.rs`: the screens and what keys do
- `src/session.rs`: a whole run of the playback
- `src/turn.rs`: the loop of the screens, and how the player stops
- `src/agreement.rs`: the screen shows what the playback does
- `src/scan.rs`, `src/path.rs`, `src/media.rs`: finding and listing music
- `src/device.rs`, `src/message.rs`, `src/key.rs`: what the parts tell each other
- `src/order.rs`, `src/text.rs`, `src/list_state.rs`, `src/clock.rs`,
  `src/debounce.rs`: order, text, lists and time

Time is counted in nanoseconds and the volume in tenths, so that the library needs
no floating point; `app/` converts both. A device is known to the library by a number
and its description, and `app/` finds the device of the sound system by that number.

Put the path of your music folder into `~/.aup/root_dir.txt`, and start the player with
a folder to play, or without one to choose from all music folders.
