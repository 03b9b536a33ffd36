# musicplayer

A music player built on iced (interface), rodio (audio output), rusqlite (song
library) and id3 (song tags). The player's logic is a Verus library, proved
against its contracts; the program around it lives in `app/`.

- `src/` — the verified library:
  - `scanner`: how a music folder is stored: which entries are album folders,
    songs or album art, the row stored for each and the parent it is filed under,
    and the tag stored with a song.
  - `playlist`: the song list with each song's tag; `files`: a list of file names;
    `utils`: directory listings.
  - `audio`: what each audio player and the application's controller do in answer to a
    message, given the state of the audio output.
  - `widgets`: the status, styles and event handling of the drag-and-drop button and
    the drop pane.
  - `bounds`: the bookkeeping of the search for a widget's visible bounds.
  - `text`: decimal formatting and suffix tests.
- `app/` — the iced program, the rodio output, the SQLite database and the file
  system; it runs the library's decisions. Given `pane` or `button` as argument it
  shows one of the two widgets instead. It needs iced's `image` feature and rodio's
  `playback` feature (ALSA), which `Cargo.toml` does not turn on, so it does not
  build as it stands.
- `tests/` — tests of the library.
