//! The decisions of a background worker that tags music with `onetagger-cli`.
//!
//! The worker takes requests over HTTP, queues them and runs the tagger for one job at a time.
//! This library decides; a runtime around it touches the file system, runs programs and talks to
//! clients. Where decisions and work alternate, a machine names the [`effects::Action`] that it
//! waits for and is told what came of it by an [`effects::Event`]:
//!
//! * [`intake`] takes a request from its arrival to its answer: [`admission`] checks it and makes
//!   a job of it, with [`move_config`] and [`normalize`];
//! * [`queue`] keeps what clients see of the queue;
//! * [`worker`] receives the jobs and carries them out one after the other: [`job_run`] is the
//!   course of one job, with [`command`] and [`single_move`], which in turn uses [`tagged_dir`],
//!   [`destination`] and [`file_move`];
//! * [`default_config`] makes sure that there is a default configuration;
//! * [`system`] states what holds of all of this together.
pub mod admission;
pub mod command;
pub mod default_config;
pub mod destination;
pub mod effects;
pub mod file_move;
pub mod ident;
pub mod intake;
pub mod job_run;
pub mod jobs;
pub mod json;
pub mod move_config;
pub mod normalize;
pub mod path;
pub mod queue;
pub mod single_move;
pub mod system;
pub mod tagged_dir;
pub mod text;
pub mod worker;
