//! Tracking of how a compiler toolchain is adopted by community projects:
//! a store of discoveries, projects, build histories and download counts,
//! and the decision logic of the build-and-migrate pipeline that keeps it
//! up to date.

pub mod chart;
pub mod clock;
pub mod db;
pub mod discovery;
pub mod downloads;
pub mod migrate;
pub mod platform;
pub mod refresh;
pub mod release;
pub mod repo_url;
pub mod retry;
pub mod root;
pub mod run;
pub mod text;
pub mod toolchain;
pub mod validate;
pub mod version;
