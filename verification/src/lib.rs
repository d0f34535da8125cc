//! Verified core of a terminal internet speed test: text handling, lookup
//! post-processing, quality grading, rolling histories, dashboard navigation
//! and layout arithmetic.
pub mod text;
pub mod state;
pub mod lookup;
pub mod history;
pub mod quality;
pub mod control;
pub mod transfer;
pub mod theme;
pub mod dashboard;
pub mod layout;
pub mod timestamps;
pub mod export;
