# playlist_fetcher

A desktop tool that queues Spotify and SoundCloud links and downloads them
into per-playlist folders with `spotdl` and `scdl`.

- `src/` is the library, checked by Verus:
  - `text.rs`: the `str` operations it relies on, stated over `Seq<char>`;
  - `queue.rs`: link sources, audio formats, entry status, queue entries;
  - `config.rs`: saved playlists and the checks on a new one;
  - `deps.rs`: the external programs and which are installed;
  - `worker.rs`: the command run for an entry and how a run is judged;
  - `state.rs`: the window's state and every change made to it, with the
    laws that tie those changes together.
- `app/` is the window (eframe), the JSON config file, the program probe and
  the worker thread that runs the downloads.
- `tests/` exercises the library on concrete values.
