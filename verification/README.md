# PhraseDJ core

PhraseDJ is a local, phrase-aware DJ application: two decks on a native audio
engine, a SQLite music library, background AI stem separation, lyrics, MIDI
and transition macros.

This crate is its verified core, written in Verus.  The functions in `src/`
carry contracts that Verus proves; the few calls into std and outside
crates sit behind small trusted wrappers whose contracts say what their
documentation promises, and a function whose only input is the clock
(`now_unix_ms`) states nothing of its result.  The `Plugin` trait, for
plugin authors to implement, has no contract.

- `types`: track identifiers (UUID text form, proved injective), decks,
  phrase kinds.
- `settings`, `toml_merge`: settings defaults and the key-by-key merge of a
  user settings document onto the defaults (user values win, missing keys
  keep their default).
- `engine`: deck and stem index checks, engine result codes, analysis input
  checks, tempo-sync partner.
- `library`: schema migration decision, analysis/stem states and their
  database text, audio-file recognition, import bookkeeping, search
  statements and LIKE patterns.
- `stems`: stem labels and tensor layouts, the cache layout on disk, the
  idempotent job registry, segment planning, overlap-add bookkeeping and the
  decisions taken on status events.
- `lyrics`, `macros`, `midi`, `plugins`, `status`, `error`: the small
  surfaces around them.

`app/` is the desktop application around the core: the Tauri shell, the
native engine's C interface, the SQLite connection, file and network I/O, the
async job queue and everything that computes on floating-point samples.
