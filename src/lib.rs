//! Settings resolution, home-marker expansion and search-pipeline decisions
//! for a small front end that pipes `fd` into `fzf`.
pub mod config;
pub mod pipeline;
pub mod tilde;
