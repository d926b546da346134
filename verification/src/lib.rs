//! Verified core of the Luogu local practice tool: labels, text handling,
//! judging decisions, problem statement rendering, request building and
//! the bookkeeping that the command line front end relies on.

pub mod text;
pub mod judge;
pub mod paths;
pub mod labels;
pub mod json;
pub mod models;
pub mod problem;
pub mod requests;
pub mod display;
pub mod serve;
pub mod config;
pub mod storage;
pub mod cli;
pub mod actions;
