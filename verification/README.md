# Sunrise launcher

The core of an installer and launcher for Project Sunrise, the offline exploration mod for
Destiny 2, with contracts that Verus proves.

- `src/models.rs`: releases, installations, preferences, platform support and the detection of
  updates.
- `src/inspection.rs`: what an installation folder holds, step by step.
- `src/atomic_write.rs`: how a data file is replaced without losing its contents on the way.
- `src/digest.rs`: the SHA-256 digest of a file that is read piece by piece.
- `src/storage.rs`: what is kept on disk, and what follows from what is found there.
- `src/paths.rs`, `src/text.rs`, `src/clock.rs`, `src/window.rs`, `src/error.rs`: what these rest on.
- `src/laws/`: what holds of the launcher as a whole.
- `app/`: files, JSON, the system and the window around the core.
- `tests/`: the core on concrete values.

No file operation is made in `src/`: its functions say what is to be done next and are told how it
ended.
