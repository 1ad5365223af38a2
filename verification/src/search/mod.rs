//! The torrent search client: options, providers, results and the rules
//! that read and merge them.
pub mod options;
pub mod movie;
pub mod title;
pub mod provider;
pub mod torrent;
pub mod trackers;
pub mod piratebay;
pub mod yts;
pub mod error;
pub mod round_robin;
pub mod page;
pub mod bitsearch;
pub mod x1337;
