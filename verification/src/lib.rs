//! The decision logic of a service that scrapes posts from a subreddit,
//! queues the ones that ask a question, stores them, and reports the
//! sentiment of a randomly chosen stored post.
//!
//! The network, queue, database and file-system work lives in the
//! application around this crate; everything it decides is here.

pub mod analysis;
pub mod config;
pub mod migrations;
pub mod scraper;
mod text;
pub mod web;
pub mod worker;
