# qconnect

A command-line client for Qobuz Connect: it controls a remote queue and renderer,
or joins as a renderer itself and plays audio locally.

- `src/` is the library: the picture of the remote queue and renderer, the
  commands, the session, the credentials, the audio player's decisions and the
  texts. It is written in Verus; every function states what it returns or changes,
  and the public proof functions state what holds of several together.
- `app/` is the program: arguments, files, the network, the audio output and the
  media controls. It decides nothing: it performs what the library asks for and
  hands back what came of it.
- `tests/` runs the library.

Waves, FLAC, MP3, AAC and MP4 files are read. `readable.rs`, and `atoms.rs` for
MP4, say which files can be handed to their readers: those that hold a number on
which a reader would panic are told apart and left alone.

Time is a number of nanoseconds since the start of a `clock::Clock`. Where a
function reads the clock or draws a random number, another one beside it takes the
value as an argument and says exactly what is done with it.

The items that are trusted rather than proved stand in `text.rs`, `clock.rs`,
`ids.rs`, `media.rs`, `notices.rs` and `encoding.rs`; each names the outside
function that it speaks of.
