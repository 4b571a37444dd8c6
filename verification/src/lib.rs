//! Verified core of a playlist downloader: the queue of links, the playlists
//! they are saved into, the checks on new entries, the decisions of the
//! download worker and the state machine that the user interface drives.

pub mod text;
pub mod queue;
pub mod config;
pub mod deps;
pub mod worker;
pub mod state;
