//! Session orchestration for interchangeable coding-agent backends: the event
//! model, per-session turn state machine, bounded session registry, queued
//! submission handling, and the byte-bounded fork-seed transcript builder.

pub mod chat;
pub mod clip;
pub mod events;
pub mod filescan;
pub mod input_box;
pub mod keymap;
pub mod numfmt;
pub mod paths;
pub mod queue;
pub mod registry;
pub mod runner;
pub mod seed;
pub mod service;
pub mod session;
pub mod text;
pub mod webapi;
pub mod widgets;
