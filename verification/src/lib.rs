//! Extraction of media files from device backups.
//!
//! A backup keeps its files under the names of their content hashes, and a
//! manifest that says which path each file had on the device. This library
//! holds the rules of an extraction: where a stored file lies
//! ([`paths`]), where it goes ([`policy`]), which rows of the manifest
//! qualify ([`manifest`]), how one entry is extracted step by step
//! ([`task`]) and how a run is summed up ([`run`]). Around them stand the
//! texts that the program shows: the command line ([`arguments`]), the
//! backups and their table ([`backup`], [`listing`]), spans of time and
//! sizes ([`duration`], [`size`]), and the log ([`logger`]).
//!
//! Nothing here reads or writes a file, a database, the clock or the
//! environment: whoever uses the library does that and hands over what was
//! found.

pub mod arguments;
pub mod backup;
pub mod duration;
pub mod listing;
pub mod logger;
pub mod manifest;
pub mod metadata;
pub mod outcome;
pub mod paths;
pub mod policy;
pub mod retriever;
pub mod run;
pub mod size;
pub mod store;
pub mod task;
pub mod text;
