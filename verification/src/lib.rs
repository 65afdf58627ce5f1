//! Per-tick orchestration core of a multiplayer world simulation server.
//!
//! The crate provides the pieces that drive one simulation tick:
//! a spatial visibility model ([`view`]) with an incremental view differ,
//! typed notification queues ([`events`]), an entity/component store with
//! generation-checked identifiers ([`entities`]), a connection registry with
//! per-connection message queues ([`net`]), and an ordered scheduler that runs
//! the core's update routines once per tick ([`systems`]).

pub mod entities;
pub mod events;
pub mod game;
pub mod net;
pub mod systems;
pub mod view;
