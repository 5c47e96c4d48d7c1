//! Aggregation of GitHub account statistics: the decisions of a rate-limit
//! aware request loop, `Link` header pagination, page folding and the merging
//! of per-repository language sizes, each stated as a contract and proved.

pub mod error;
pub mod executor;
pub mod language_colors;
pub mod languages;
pub mod link;
pub mod link_laws;
pub mod pages;
pub mod response;
pub mod serving;
pub mod stats;
pub mod text;
pub mod text_map;
pub mod themes;
pub mod top_languages;
