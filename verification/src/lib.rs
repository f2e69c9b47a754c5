//! PhraseDJ: the verified core of a local, phrase-aware DJ application.
//!
//! The library holds the decisions and data rules of the application: track
//! identifiers, settings and their merging, the engine bridge's checks, the
//! music library's schema states, import bookkeeping and search queries, the
//! stem cache layout and job queue, and the small lyrics, macro, MIDI and
//! plugin surfaces.  I/O, the native audio engine, the database connection
//! and the desktop shell are driven by the application around it.

pub mod engine;
pub mod error;
pub mod library;
pub mod lyrics;
pub mod macros;
pub mod midi;
pub mod plugins;
pub mod settings;
pub mod status;
pub mod stems;
pub mod text;
pub mod toml_merge;
pub mod types;
