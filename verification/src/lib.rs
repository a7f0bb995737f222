//! A daemon's core for watching channels of two providers and acquiring
//! their streams when they go live.
//!
//! The crate holds the decisions and the bookkeeping; it starts no thread,
//! runs no program and touches no file. What a caller has to do around it:
//!
//! * [`registry`] is the one shared state, to be kept behind one lock;
//!   [`state`] is its mathematical model with the laws that hold of it.
//! * [`subscriber`] decides what the orchestration loop does in a cycle.
//! * [`task`] is one acquisition as a state machine; [`executor`] builds
//!   the command lines of the acquisition executor and reads its output.
//! * [`ipc`] answers the queries of the control channel.
//! * [`config`] holds the configuration and applies a reload.
//! * [`serve`] decides what the supervisor does in a tick.
//! * [`id`], [`info`], [`yt_dlp`], [`paths`] and [`update`] are the data
//!   these work on; [`text`], [`path`], [`quote`] and [`id_map`] are the
//!   tools.
pub mod config;
pub mod executor;
pub mod id;
pub mod id_map;
pub mod info;
pub mod ipc;
pub mod path;
pub mod paths;
pub mod quote;
pub mod registry;
pub mod serve;
pub mod state;
pub mod subscriber;
pub mod task;
pub mod text;
pub mod update;
pub mod yt_dlp;
