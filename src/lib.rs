//! Codecs for the binary data files of a mobile game: a key-typed record
//! archive, the kind registry that names its records, a scaled time value
//! codec and a compressed envelope.

pub mod datetime;
pub mod registry;
pub mod wire;
pub mod archive;
pub mod envelope;
pub mod locale;
pub mod prefs;
