//! Compares the films that two Letterboxd members have watched: which films only one of them has
//! watched, and which both have, from the best rated to the worst.

pub mod cache;
pub mod client;
pub mod compare;
pub mod config;
pub mod decimal;
pub mod error;
pub mod fetch;
pub mod film;
pub mod order;
pub mod rating;
pub mod routes;
pub mod scrape;
pub mod sender;
pub mod status;
pub mod text;
