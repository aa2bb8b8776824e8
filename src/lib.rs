//! A backup pipeline orchestrator for the rustic backup engine.
//!
//! The library builds the exact argument vector of every stage, turns the
//! result of each command into a stage outcome, sequences the stages with
//! early abort as a state machine, and decides the mount stage between the
//! commands it needs. Running commands, touching the file system and
//! printing are left to the caller, which performs what the library asks
//! for and reports back.
//!
//! | Module     | Responsibility                                   |
//! |------------|--------------------------------------------------|
//! | [`cli`]    | Parsed run options                               |
//! | [`config`] | Resolved configuration and its defaults          |
//! | [`runner`] | Privilege prefix and engine base command         |
//! | [`run`]    | Stage commands and the pipeline state machine    |
//! | [`ui`]     | Stage outcomes, their report and the summary     |
//! | [`mount`]  | Share table and the mount stage's decisions      |
//! | [`text`]   | Decimal rendering, joining and character helpers |

pub mod cli;
pub mod config;
pub mod mount;
pub mod run;
pub mod runner;
pub mod text;
pub mod ui;
